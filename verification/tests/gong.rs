use ghostsun_app::gong::{
    cached_image, choose_reference, civil_from_days, consider_index, days_from_civil,
    decode_reference, downloaded_image, filename_unix_seconds, index_url, nearest_reference,
    parse_filenames, reference_image, reference_url, scan_seconds, search_days, too_small_text,
    Candidate, IndexPage, ReferenceImageError, ReferenceRefusal, MAX_REFERENCE_DELTA_SECONDS,
};

#[test]
fn parses_only_science_grade_halpha_files() {
    let html = r#"<a href="20260723160722Th.jpg">x</a>
            <a href="20260723160722Th.jpg">x</a>
            <a href="20260723160822Ub.jpg">bad product</a>
            <a href="20260723160922Uh.jpg">x</a>"#;
    assert_eq!(parse_filenames(html), vec!["20260723160722Th.jpg", "20260723160922Uh.jpg"]);
}

#[test]
fn converts_gong_timestamp_round_trip() {
    let seconds = filename_unix_seconds("20260723160722Th.jpg").unwrap();
    let day = seconds.div_euclid(86_400);
    assert_eq!(civil_from_days(day), (2026, 7, 23));
    assert_eq!(seconds.rem_euclid(86_400), 16 * 3600 + 7 * 60 + 22);
}

#[test]
fn dates_and_day_numbers_are_inverse() {
    assert_eq!(days_from_civil(1970, 1, 1), 0);
    assert_eq!(days_from_civil(2000, 2, 29), 11_016);
    assert_eq!(civil_from_days(11_017), (2000, 3, 1));
    assert_eq!(civil_from_days(-1), (1969, 12, 31));
    for day in [-800_000, -719_468, -1, 0, 59, 11_016, 20_657, 2_932_896] {
        let (year, month, date) = civil_from_days(day);
        assert_eq!(days_from_civil(year, month, date), day);
    }
}

#[test]
fn a_leap_year_has_one_day_more() {
    assert_eq!(days_from_civil(2025, 1, 1) - days_from_civil(2024, 1, 1), 366);
    assert_eq!(days_from_civil(2026, 1, 1) - days_from_civil(2025, 1, 1), 365);
    assert_eq!(days_from_civil(2101, 1, 1) - days_from_civil(2100, 1, 1), 365);
}

#[test]
fn a_scan_without_a_clock_is_refused() {
    assert_eq!(scan_seconds(621_355_968_010_000_000), Ok(1));
    assert_eq!(scan_seconds(621_355_968_009_999_999), Ok(0));
    let refusal = "this SER has no valid UTC timestamp; GONG feature matching needs acquisition time";
    assert_eq!(scan_seconds(621_355_968_000_000_000), Err(refusal.to_owned()));
    assert_eq!(scan_seconds(0), Err(refusal.to_owned()));
}

#[test]
fn the_neighbouring_days_are_searched() {
    assert_eq!(search_days(86_400 * 10 + 5), vec![9, 10, 11]);
    assert_eq!(search_days(-1), vec![-2, -1, 0]);
    let day = days_from_civil(2026, 7, 3);
    assert_eq!(index_url(day), "https://gong2.nso.edu/ftp/HA/hag/202607/20260703/");
}

#[test]
fn malformed_names_carry_no_time() {
    assert_eq!(filename_unix_seconds("19700101000001Th.jpg"), Some(1));
    assert_eq!(filename_unix_seconds("short"), None);
    assert_eq!(filename_unix_seconds("2026x723160722Th.jpg"), None);
}

#[test]
fn the_nearest_reference_wins() {
    let index = "20260723160722Th.jpg 20260723160922Uh.jpg 20260723170000Bh.jpg";
    let target = filename_unix_seconds("20260723160900Th.jpg").unwrap();
    let best = consider_index(None, target, "https://a/", index).unwrap();
    assert_eq!(best.filename, "20260723160922Uh.jpg");
    assert_eq!(best.delta_seconds, 22);
    assert_eq!(reference_url(&best), "https://a/20260723160922Uh.jpg");
    let kept = consider_index(Some(best), target, "https://b/", "20260723160722Th.jpg").unwrap();
    assert_eq!(kept.directory_url, "https://a/");
    assert!(consider_index(None, target, "https://a/", "nothing here").is_none());
}

#[test]
fn a_distant_reference_is_refused() {
    let at = |delta_seconds| Candidate {
        delta_seconds,
        filename: "f".to_owned(),
        directory_url: "d".to_owned(),
    };
    assert!(choose_reference(Some(at(MAX_REFERENCE_DELTA_SECONDS))).is_ok());
    let far = choose_reference(Some(at(MAX_REFERENCE_DELTA_SECONDS + 1))).err().unwrap();
    assert!(matches!(far, ReferenceRefusal::TooFar { delta_seconds: 21_601 }));
    assert_eq!(
        far.text("6.0"),
        "nearest GONG H-alpha reference is 6.0 hours away; refusing an unreliable match"
    );
    let none = choose_reference(None).err().unwrap();
    assert!(matches!(none, ReferenceRefusal::NoneAvailable));
    assert_eq!(none.text(""), "no GONG H-alpha reference was available near the SER timestamp");
}

#[test]
fn references_are_scaled_to_sixteen_bits() {
    let gray = vec![0u8, 1, 128, 255];
    let image = reference_image(512, 600, &gray).ok().unwrap();
    assert_eq!((image.width, image.height), (512, 600));
    assert_eq!(image.pixels.len(), 512 * 600);
    assert_eq!(image.pixels[..5], [0, 257, 32_896, 65_535, 0]);
    let long = vec![9u8; 512 * 512 + 7];
    let image = reference_image(512, 512, &long).ok().unwrap();
    assert_eq!(image.pixels.len(), 512 * 512);
    assert!(image.pixels.iter().all(|&v| v == 9 * 257));
    let small = reference_image(511, 600, &gray).err().unwrap();
    assert!(matches!(small, ReferenceImageError::TooSmall { width: 511, height: 600 }));
    assert_eq!(
        too_small_text(511, 600),
        "GONG reference is unexpectedly small (511x600); full resolution is required"
    );
}

#[test]
fn a_downloaded_picture_is_decoded() {
    let grey = image::GrayImage::from_pixel(520, 512, image::Luma([200u8]));
    let mut bytes = std::io::Cursor::new(Vec::new());
    grey.write_to(&mut bytes, image::ImageFormat::Jpeg).unwrap();
    let decoded = decode_reference(bytes.get_ref()).ok().unwrap();
    assert_eq!((decoded.width, decoded.height), (520, 512));
    assert_eq!(decoded.pixels.len(), 520 * 512);
    let centre = decoded.pixels[256 * 520 + 260] / 257;
    assert!((198..=202).contains(&centre), "{centre}");
}

#[test]
fn small_and_broken_pictures_are_told_apart() {
    let grey = image::GrayImage::from_pixel(64, 48, image::Luma([10u8]));
    let mut bytes = std::io::Cursor::new(Vec::new());
    grey.write_to(&mut bytes, image::ImageFormat::Jpeg).unwrap();
    let small = decode_reference(bytes.get_ref()).err().unwrap();
    assert!(matches!(small, ReferenceImageError::TooSmall { width: 64, height: 48 }));
    let broken = decode_reference(b"not a picture").err().unwrap();
    assert!(matches!(broken, ReferenceImageError::Decode(_)));
}

#[test]
fn the_reference_is_chosen_over_all_directories() {
    let page = |url: &str, listing: Option<&str>| IndexPage {
        url: url.to_owned(),
        listing: listing.map(|l| l.to_owned()),
    };
    let target = filename_unix_seconds("20260723000100Th.jpg").unwrap();
    let pages = vec![
        page("https://a/", Some("20260722235930Th.jpg")),
        page("https://b/", None),
        page("https://c/", Some("20260723000030Uh.jpg 20260723120000Bh.jpg")),
    ];
    let best = nearest_reference(target, &pages).ok().unwrap();
    assert_eq!((best.filename.as_str(), best.delta_seconds), ("20260723000030Uh.jpg", 30));
    assert_eq!(reference_url(&best), "https://c/20260723000030Uh.jpg");
    let none = nearest_reference(target, &vec![page("https://b/", None)]).err().unwrap();
    assert!(matches!(none, ReferenceRefusal::NoneAvailable));
    let far = vec![page("https://c/", Some("20260723120000Bh.jpg"))];
    assert!(matches!(
        nearest_reference(target, &far).err().unwrap(),
        ReferenceRefusal::TooFar { .. }
    ));
}

#[test]
fn empty_pictures_are_not_used() {
    assert_eq!(cached_image(None), None);
    assert_eq!(cached_image(Some(Vec::new())), None);
    assert_eq!(cached_image(Some(vec![1])), Some(vec![1]));
    assert_eq!(downloaded_image(vec![2]), Ok(vec![2]));
    assert_eq!(downloaded_image(Vec::new()), Err("GONG returned an empty image".to_owned()));
}
