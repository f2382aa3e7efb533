use art_exposure::naming::{make_filename_safe, wallpaper_file_name};

#[test]
fn sanitize_replaces_each_disallowed_character() {
    assert_eq!(make_filename_safe("Monet / Sunrise: 1872.png"), "Monet___Sunrise__1872.png");
}

#[test]
fn sanitize_keeps_safe_text() {
    let safe = "Berthe_Morisot-Impression.Sunrise-1872.png";
    assert_eq!(make_filename_safe(safe), safe);
}

#[test]
fn sanitize_is_idempotent() {
    let once = make_filename_safe("Hokusai: The Great Wave (c. 1831)");
    assert_eq!(make_filename_safe(&once), once);
}

#[test]
fn sanitize_maps_one_character_to_one() {
    let r = make_filename_safe("été à Paris");
    assert_eq!(r, "_t____Paris");
    assert_eq!(r.chars().count(), "été à Paris".chars().count());
}

#[test]
fn sanitize_empty_text() {
    assert_eq!(make_filename_safe(""), "");
}

#[test]
fn file_name_joins_artist_and_title() {
    assert_eq!(
        wallpaper_file_name("Berthe Morisot", "Impression, Sunrise"),
        "Berthe_Morisot_-_Impression__Sunrise.png"
    );
}
