use nekoland::assets::{key_color, png_stem, png_stems, str_le};
use nekoland::geometry::{union_bounds, Rect};
use nekoland::heat::channel_url;
use nekoland::i18n::{language, translate, Language};
use nekoland::icon::{tile_pixels, ChannelOrder};
use nekoland::text::{ends_with, starts_with, str_eq};

#[test]
fn translations_by_language() {
    assert_eq!(translate("fr_FR.UTF-8", "quit"), "Quitter");
    assert_eq!(translate("de_DE.UTF-8", "quit"), "Beenden");
    assert_eq!(translate("en_US.UTF-8", "quit"), "Quit");
    assert_eq!(translate("C", "saved"), "Saved ✓");
    assert_eq!(translate("fr", "save_mapping"), "💾 Enregistrer mapping");
    assert_eq!(translate("de_AT", "scale"), "Größe (Scale)");
    assert_eq!(translate("fr_CA", "close"), "Fermer (Échap)");
    assert!(translate("de", "credits").starts_with("Credits: The Neko Archive Project"));
    assert!(translate("fr", "credits").starts_with("Crédits :"));
}

#[test]
fn unknown_key_is_itself() {
    assert_eq!(translate("fr_FR", "no_such_key"), "no_such_key");
    assert_eq!(translate("", ""), "");
}

#[test]
fn language_from_lang() {
    assert_eq!(language("fr_BE"), Language::French);
    assert_eq!(language("de"), Language::German);
    assert_eq!(language("f"), Language::English);
    assert_eq!(language("es_ES"), Language::English);
}

#[test]
fn string_helpers() {
    assert!(str_eq("héllo", "héllo"));
    assert!(!str_eq("héllo", "hello"));
    assert!(starts_with("abc", "ab"));
    assert!(!starts_with("a", "ab"));
    assert!(ends_with("cat.png", ".png"));
    assert!(!ends_with("cat.jpg", ".png"));
}

#[test]
fn png_stems_of_names() {
    assert_eq!(png_stem("neko.png"), Some("neko".to_string()));
    assert_eq!(png_stem(".png"), None);
    assert_eq!(png_stem("a.b.png"), Some("a.b".to_string()));
    assert_eq!(png_stem("neko.json"), None);
    assert_eq!(png_stem("neko.PNG"), None);
    assert_eq!(png_stem("..png"), Some(".".to_string()));
    let names: Vec<String> = ["wool.png", "neko.json", "neko.png", "Zed.png", "ball.png", "readme"]
        .iter()
        .map(|s| s.to_string())
        .collect();
    assert_eq!(png_stems(&names), vec!["Zed", "ball", "neko", "wool"]);
}

#[test]
fn lexicographic_order() {
    assert!(str_le("abc", "abd"));
    assert!(str_le("ab", "abc"));
    assert!(!str_le("abc", "ab"));
    assert!(str_le("", ""));
    assert!(str_le("Z", "a"));
    assert!(str_le("é", "ê"));
}

#[test]
fn key_color_of_first_pixel() {
    assert_eq!(key_color(&[10, 20, 30, 255, 0, 0, 0, 0], 4), Some((10, 20, 30)));
    assert_eq!(key_color(&[10, 20, 30, 128], 4), None);
    assert_eq!(key_color(&[10, 20, 30], 3), Some((10, 20, 30)));
    assert_eq!(key_color(&[10, 20], 3), None);
}

#[test]
fn tile_pixels_reorders_channels() {
    // 2x2 tile, 4 channels, rowstride 10 (two padding bytes per row).
    let px: Vec<u8> = vec![
        1, 2, 3, 4, 5, 6, 7, 8, 0, 0, //
        9, 10, 11, 12, 13, 14, 15, 16, 0, 0,
    ];
    assert_eq!(
        tile_pixels(&px, 2, 2, 10, 4, ChannelOrder::Argb),
        vec![4, 1, 2, 3, 8, 5, 6, 7, 12, 9, 10, 11, 16, 13, 14, 15]
    );
    assert_eq!(
        tile_pixels(&px, 2, 2, 10, 4, ChannelOrder::Rgba),
        vec![1, 2, 3, 4, 5, 6, 7, 8, 9, 10, 11, 12, 13, 14, 15, 16]
    );
    let rgb: Vec<u8> = vec![1, 2, 3, 4, 5, 6];
    assert_eq!(tile_pixels(&rgb, 2, 1, 6, 3, ChannelOrder::Argb), vec![255, 1, 2, 3, 255, 4, 5, 6]);
}

#[test]
fn union_of_monitors() {
    assert_eq!(union_bounds(&vec![]), (0, 0, 1920, 1080));
    let m = vec![
        Rect { x: 0, y: 0, width: 1920, height: 1080 },
        Rect { x: 1920, y: -200, width: 1280, height: 1024 },
    ];
    assert_eq!(union_bounds(&m), (0, -200, 3200, 1280));
    let one = vec![Rect { x: 100, y: 50, width: 800, height: 600 }];
    assert_eq!(union_bounds(&one), (100, 50, 800, 600));
}

#[test]
fn heat_url() {
    assert_eq!(channel_url("12345"), "wss://heat-api.j38.net/channel/12345");
}
