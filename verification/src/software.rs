//! The vendor's own mount software on this machine.

use crate::site::Platform;
use crate::text::{joined2, opt_text, texts};
use vstd::prelude::*;
use vstd::string::StringExecFns;

verus! {

/// Where the software page of the vendor is.
pub fn software_page() -> (url: &'static str)
    ensures
        url@ == "https://www.zwoastro.com/software/"@,
{
    "https://www.zwoastro.com/software/"
}

/// Parts of several paths.
pub open spec fn path_parts(paths: Seq<Vec<String>>) -> Seq<Seq<Seq<char>>> {
    paths.map_values(|p: Vec<String>| texts(p@))
}

/// What the 32-bit program folder of Windows may hold.
pub open spec fn old_program_places(root: Seq<char>) -> Seq<Seq<Seq<char>>> {
    seq![
        seq![
            root,
            "Common Files"@,
            "ASCOM"@,
            "ZWO"@,
            "ASIMount"@,
            "ASCOM.ASIMount.Server.exe"@,
        ],
        seq![root, "ZWO"@, "ASIStudio"@, "ASIStudio.exe"@],
    ]
}

/// What the program folder of Windows may hold.
pub open spec fn program_places(root: Seq<char>) -> Seq<Seq<Seq<char>>> {
    seq![
        seq![root, "ZWO"@, "ASIStudio"@, "ASIStudio.exe"@],
        seq![root, "ASIStudio"@, "ASIStudio.exe"@],
    ]
}

/// The two applications in a folder of macOS.
pub open spec fn application_places(folder: Seq<Seq<char>>) -> Seq<Seq<Seq<char>>> {
    seq![folder.push("ASIStudio.app"@), folder.push("ASI Mount.app"@)]
}

/// Where the software may be, in the order in which it is looked for.
pub open spec fn software_places(
    platform: Platform,
    old_programs: Option<Seq<char>>,
    programs: Option<Seq<char>>,
    home: Option<Seq<char>>,
) -> Seq<Seq<Seq<char>>> {
    match platform {
        Platform::Windows => (match old_programs {
            Some(root) => old_program_places(root),
            None => Seq::empty(),
        }) + (match programs {
            Some(root) => program_places(root),
            None => Seq::empty(),
        }),
        Platform::MacOs => application_places(seq!["/Applications"@]) + (match home {
            Some(h) => application_places(seq![h, "Applications"@]),
            None => Seq::empty(),
        }),
        Platform::Other => Seq::empty(),
    }
}

fn add_path(paths: &mut Vec<Vec<String>>, root: &str, rest: &[&str])
    ensures
        path_parts(final(paths)@) == path_parts(old(paths)@).push(
            seq![root@] + rest@.map_values(|s: &str| s@),
        ),
{
    let mut parts: Vec<String> = Vec::new();
    parts.push(root.to_owned());
    let mut i: usize = 0;
    assert(texts(parts@) =~= seq![root@] + rest@.take(0).map_values(|s: &str| s@));
    while i < rest.len()
        invariant
            i <= rest@.len(),
            texts(parts@) == seq![root@] + rest@.take(i as int).map_values(|s: &str| s@),
        decreases rest@.len() - i,
    {
        let ghost before = texts(parts@);
        parts.push(rest[i].to_owned());
        assert(texts(parts@) =~= before.push(rest@[i as int]@));
        assert(rest@.take(i + 1) =~= rest@.take(i as int).push(rest@[i as int]));
        assert(texts(parts@) =~= seq![root@] + rest@.take(i + 1).map_values(|s: &str| s@));
        i = i + 1;
    }
    assert(rest@.take(rest@.len() as int) =~= rest@);
    paths.push(parts);
    assert(path_parts(paths@) =~= path_parts(old(paths)@).push(texts(parts@)));
}

/// Where the software may be on this machine.
pub fn software_candidates(
    platform: Platform,
    old_programs: Option<String>,
    programs: Option<String>,
    home: Option<String>,
) -> (paths: Vec<Vec<String>>)
    ensures
        path_parts(paths@) == software_places(
            platform,
            opt_text(old_programs),
            opt_text(programs),
            opt_text(home),
        ),
{
    let mut paths: Vec<Vec<String>> = Vec::new();
    let ghost wanted = software_places(
        platform,
        opt_text(old_programs),
        opt_text(programs),
        opt_text(home),
    );
    match platform {
        Platform::Windows => {
            if let Some(root) = &old_programs {
                add_path(
                    &mut paths,
                    root.as_str(),
                    &["Common Files", "ASCOM", "ZWO", "ASIMount", "ASCOM.ASIMount.Server.exe"],
                );
                add_path(&mut paths, root.as_str(), &["ZWO", "ASIStudio", "ASIStudio.exe"]);
            }
            if let Some(root) = &programs {
                add_path(&mut paths, root.as_str(), &["ZWO", "ASIStudio", "ASIStudio.exe"]);
                add_path(&mut paths, root.as_str(), &["ASIStudio", "ASIStudio.exe"]);
            }
        },
        Platform::MacOs => {
            add_path(&mut paths, "/Applications", &["ASIStudio.app"]);
            add_path(&mut paths, "/Applications", &["ASI Mount.app"]);
            if let Some(h) = &home {
                add_path(&mut paths, h.as_str(), &["Applications", "ASIStudio.app"]);
                add_path(&mut paths, h.as_str(), &["Applications", "ASI Mount.app"]);
            }
        },
        Platform::Other => {},
    }
    assert(path_parts(paths@) =~~= wanted);
    paths
}

/// What is said when the software, or its page, was opened.
pub fn opened_text(platform: Platform, opened: Option<&str>) -> (text: String)
    ensures
        text@ == (match opened {
            Some(path) => "Opened "@ + path@,
            None => match platform {
                Platform::Windows =>
                    "ASI Mount was not found locally; opened the ZWO software page"@,
                Platform::MacOs => "ASIStudio was not found locally; opened the ZWO software page"@,
                Platform::Other => "Opened the ZWO software page"@,
            },
        }),
{
    match opened {
        Some(path) => joined2("Opened ", path),
        None => match platform {
            Platform::Windows =>
                "ASI Mount was not found locally; opened the ZWO software page".to_owned(),
            Platform::MacOs =>
                "ASIStudio was not found locally; opened the ZWO software page".to_owned(),
            Platform::Other => "Opened the ZWO software page".to_owned(),
        },
    }
}

} // verus!
