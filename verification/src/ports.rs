//! Serial ports as the mount panel lists them.

use crate::mount_panel::PortInfo;
use crate::site::has_prefix;
use crate::text::{joined2, joined3, same_text};
use vstd::prelude::*;
use vstd::string::{StrSliceExecFns, StringExecFns};

verus! {

/// Vendor number of the mounts that are looked for.
pub const ZWO_VENDOR: u16 = 0x03c3;

/// What a port is attached to.
pub enum PortKind {
    Usb { vendor: u16, product: u16, name: Option<String> },
    Bluetooth,
    Pci,
    Unknown,
}

/// A hexadecimal digit in upper case.
pub open spec fn hex_digit(d: int) -> char {
    if d < 10 {
        (d + 48) as char
    } else {
        (d + 55) as char
    }
}

/// Four hexadecimal digits.
pub open spec fn hex4(n: u16) -> Seq<char> {
    seq![
        hex_digit(n as int / 4096),
        hex_digit(n as int / 256 % 16),
        hex_digit(n as int / 16 % 16),
        hex_digit(n as int % 16),
    ]
}

fn hex_char(d: u16) -> (c: char)
    requires
        d < 16,
    ensures
        c == hex_digit(d as int),
{
    if d < 10 {
        (d as u8 + 48) as char
    } else {
        (d as u8 + 55) as char
    }
}

fn hex_text(n: u16) -> (text: String)
    ensures
        text@ == hex4(n),
{
    let mut text = String::new();
    text.push(hex_char(n / 4096));
    text.push(hex_char(n / 256 % 16));
    text.push(hex_char(n / 16 % 16));
    text.push(hex_char(n % 16));
    assert(text@ =~= hex4(n));
    text
}

pub open spec fn port_detail(kind: PortKind) -> Seq<char> {
    match kind {
        PortKind::Usb { vendor, product, name } => (match name {
            Some(n) => n@,
            None => "USB serial"@,
        }) + " - "@ + hex4(vendor) + ":"@ + hex4(product),
        PortKind::Bluetooth => "Bluetooth"@,
        PortKind::Pci => "PCI serial"@,
        PortKind::Unknown => "Serial port"@,
    }
}

/// The entry of a port. A mount is known by its vendor.
pub fn describe_port(name: String, kind: PortKind) -> (port: PortInfo)
    ensures
        port.name == name,
        port.detail@ == port_detail(kind),
        port.is_zwo == (kind matches PortKind::Usb { vendor, .. } && vendor == ZWO_VENDOR),
{
    let mut is_zwo: bool = false;
    let detail: String = match kind {
        PortKind::Usb { vendor, product, name: label } => {
            is_zwo = vendor == ZWO_VENDOR;
            let shown: String = match label {
                Some(n) => n,
                None => "USB serial".to_owned(),
            };
            let mut t = joined3(shown.as_str(), " - ", hex_text(vendor).as_str());
            t.append(":");
            t.append(hex_text(product).as_str());
            t
        },
        PortKind::Bluetooth => "Bluetooth".to_owned(),
        PortKind::Pci => "PCI serial".to_owned(),
        PortKind::Unknown => "Serial port".to_owned(),
    };
    PortInfo { name, detail, is_zwo }
}

/// The ports without the incoming ends of macOS.
pub open spec fn outgoing(ports: Seq<PortInfo>) -> Seq<PortInfo>
    decreases ports.len(),
{
    if ports.len() == 0 {
        ports
    } else if has_prefix(ports.last().name@, "/dev/tty."@) {
        outgoing(ports.drop_last())
    } else {
        outgoing(ports.drop_last()).push(ports.last())
    }
}

pub open spec fn is_listed(ports: Seq<PortInfo>, name: Seq<char>) -> bool {
    exists|i: int| 0 <= i < ports.len() && (#[trigger] ports[i]).name@ == name
}

/// A port that was found by its device file alone.
pub open spec fn is_fallback(port: PortInfo, name: Seq<char>) -> bool {
    port.name@ == name && port.detail@ == "macOS /dev/cu fallback"@ && !port.is_zwo
}

fn starts_with(s: &str, prefix: &str) -> (r: bool)
    ensures
        r == has_prefix(s@, prefix@),
{
    let n: usize = prefix.unicode_len();
    if s.unicode_len() < n {
        return false;
    }
    let head = s.substring_char(0, n);
    assert(head@ =~= s@.take(n as int));
    same_text(head, prefix)
}

/// Keeps the outgoing ends.
pub fn keep_outgoing(ports: Vec<PortInfo>) -> (kept: Vec<PortInfo>)
    ensures
        kept@ == outgoing(ports@),
{
    let ghost all = ports@;
    let mut rest: Vec<PortInfo> = ports;
    let mut kept: Vec<PortInfo> = Vec::new();
    // The ports come off the end, so they are collected the other way round.
    while rest.len() > 0
        invariant
            outgoing(all) == outgoing(rest@) + kept@.reverse(),
        decreases rest@.len(),
    {
        let ghost before = rest@;
        let ghost kept_before = kept@;
        if let Some(port) = rest.pop() {
            assert(rest@ =~= before.drop_last());
            if !starts_with(port.name.as_str(), "/dev/tty.") {
                kept.push(port);
                assert(outgoing(before.drop_last()).push(before.last()) + kept_before.reverse()
                    =~= outgoing(rest@) + kept@.reverse());
            }
        }
    }
    assert(outgoing(rest@) + kept@.reverse() =~= kept@.reverse());
    let mut out: Vec<PortInfo> = Vec::new();
    while kept.len() > 0
        invariant
            outgoing(all) == out@ + kept@.reverse(),
        decreases kept@.len(),
    {
        let ghost before = kept@;
        let ghost out_before = out@;
        if let Some(port) = kept.pop() {
            out.push(port);
            assert(before.reverse() =~= seq![port] + kept@.reverse());
            assert(out_before + before.reverse() =~= out@ + kept@.reverse());
        }
    }
    assert(out@ + kept@.reverse() =~= out@);
    out
}

/// Adds a device file that the list does not have, where its name is that of an
/// outgoing port.
pub fn add_device(ports: &mut Vec<PortInfo>, filename: &str)
    ensures
        ({
            let path = "/dev/"@ + filename@;
            if !has_prefix(filename@, "cu."@) || is_listed(old(ports)@, path) {
                final(ports)@ == old(ports)@
            } else {
                &&& final(ports)@.len() == old(ports)@.len() + 1
                &&& final(ports)@.drop_last() == old(ports)@
                &&& is_fallback(final(ports)@.last(), path)
            }
        }),
{
    if !starts_with(filename, "cu.") {
        return;
    }
    let name = joined2("/dev/", filename);
    let mut i: usize = 0;
    while i < ports.len()
        invariant
            i <= ports@.len(),
            *ports == *old(ports),
            name@ == "/dev/"@ + filename@,
            forall|k: int| 0 <= k < i ==> (#[trigger] ports@[k]).name@ != name@,
        decreases ports@.len() - i,
    {
        if same_text(ports[i].name.as_str(), name.as_str()) {
            assert(is_listed(ports@, name@));
            return;
        }
        i = i + 1;
    }
    ports.push(
        PortInfo { name, detail: "macOS /dev/cu fallback".to_owned(), is_zwo: false },
    );
    assert(ports@.drop_last() =~= old(ports)@);
}

/// The value of a hexadecimal digit.
pub open spec fn hex_value(c: char) -> int {
    if '0' <= c <= '9' {
        c as int - '0' as int
    } else {
        c as int - 'A' as int + 10
    }
}

/// Four digits tell the number: read from the left, each counts sixteen times the next.
pub proof fn hex_reads_back(n: u16)
    ensures
        hex4(n).len() == 4,
        4096 * hex_value(hex4(n)[0]) + 256 * hex_value(hex4(n)[1]) + 16 * hex_value(hex4(n)[2])
            + hex_value(hex4(n)[3]) == n,
{
    let m = n as int;
    let a = m / 16;
    let b = a / 16;
    let c = b / 16;
    assert(m / 256 == b && m / 4096 == c && 0 <= c < 16);
    lemma_hex_digit(c);
    lemma_hex_digit(b % 16);
    lemma_hex_digit(a % 16);
    lemma_hex_digit(m % 16);
}

proof fn lemma_hex_digit(d: int)
    requires
        0 <= d < 16,
    ensures
        hex_value(hex_digit(d)) == d,
        '0' <= hex_digit(d) <= '9' || 'A' <= hex_digit(d) <= 'F',
{
}

/// Every outgoing port is kept, and no incoming end is.
pub proof fn incoming_ends_are_dropped(ports: Seq<PortInfo>, port: PortInfo)
    ensures
        outgoing(ports).contains(port) <==> ports.contains(port) && !has_prefix(
            port.name@,
            "/dev/tty."@,
        ),
        outgoing(ports).len() <= ports.len(),
    decreases ports.len(),
{
    if ports.len() > 0 {
        let less = ports.drop_last();
        let last = ports.len() - 1;
        incoming_ends_are_dropped(less, port);
        let all = outgoing(ports);
        let old = outgoing(less);
        assert(ports[last] == ports.last());
        if ports.contains(port) {
            let k = choose|k: int| 0 <= k < ports.len() && ports[k] == port;
            if k < last {
                assert(less[k] == port);
            }
        }
        if less.contains(port) {
            let k = choose|k: int| 0 <= k < less.len() && less[k] == port;
            assert(ports[k] == port);
        }
        if all.contains(port) && !old.contains(port) {
            let k = choose|k: int| 0 <= k < all.len() && all[k] == port;
            assert(k < old.len() ==> old[k] == port);
        }
        if old.contains(port) {
            let k = choose|k: int| 0 <= k < old.len() && old[k] == port;
            assert(all[k] == port);
        }
        if !has_prefix(ports.last().name@, "/dev/tty."@) {
            assert(all[all.len() - 1] == ports.last());
        }
    }
}

} // verus!
