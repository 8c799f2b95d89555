use zellit::theme::{RgbColor, Theme, ThemeComponent, ThemeComponentType};

#[test]
fn from_hex_parses_six_digits_with_or_without_hash() {
    assert_eq!(RgbColor::from_hex("#ff0000"), Some(RgbColor::new(255, 0, 0)));
    assert_eq!(RgbColor::from_hex("ff8800"), Some(RgbColor::new(255, 136, 0)));
    assert_eq!(RgbColor::from_hex("#ABCDEF"), Some(RgbColor::new(171, 205, 239)));
    assert_eq!(RgbColor::from_hex("##00ff7f"), Some(RgbColor::new(0, 255, 127)));
}

#[test]
fn from_hex_rejects_wrong_length_and_bad_digits() {
    assert_eq!(RgbColor::from_hex(""), None);
    assert_eq!(RgbColor::from_hex("#"), None);
    assert_eq!(RgbColor::from_hex("#fff"), None);
    assert_eq!(RgbColor::from_hex("#ff00000"), None);
    assert_eq!(RgbColor::from_hex("#gg0000"), None);
    assert_eq!(RgbColor::from_hex("#00 000"), None);
    assert_eq!(RgbColor::from_hex("-f0000"), None);
}

#[test]
fn from_hex_accepts_a_plus_sign_as_radix_parsing_does() {
    assert_eq!(RgbColor::from_hex("+f+f+f"), Some(RgbColor::new(15, 15, 15)));
}

#[test]
fn to_hex_writes_lowercase_zero_padded_digits() {
    assert_eq!(RgbColor::new(255, 136, 0).to_hex(), "#ff8800");
    assert_eq!(RgbColor::new(1, 2, 3).to_hex(), "#010203");
    assert_eq!(RgbColor::new(171, 205, 239).to_hex(), "#abcdef");
}

#[test]
fn hex_round_trip_gives_the_color_back() {
    for c in [
        RgbColor::new(0, 0, 0),
        RgbColor::new(255, 255, 255),
        RgbColor::new(18, 52, 86),
        RgbColor::new(200, 7, 160),
    ] {
        assert_eq!(RgbColor::from_hex(&c.to_hex()), Some(c));
    }
}

#[test]
fn saturating_add_clamps_the_packed_value() {
    assert_eq!(RgbColor::new(0, 0, 10).saturating_add(5), 15);
    assert_eq!(RgbColor::new(0, 0, 250).saturating_add(10), 255);
    assert_eq!(RgbColor::new(0, 0, 3).saturating_add(-5), 0);
    assert_eq!(RgbColor::new(1, 0, 0).saturating_add(-128), 255);
    assert_eq!(RgbColor::new(0, 0, 200).saturating_add_unsigned(100), 255);
    assert_eq!(RgbColor::new(0, 0, 20).saturating_add_unsigned(30), 50);
}

#[test]
fn conversions_pack_channels_and_take_red() {
    assert_eq!(i32::from(RgbColor::new(1, 2, 3)), 66051);
    assert_eq!(i32::from(RgbColor::new(255, 255, 255)), 16777215);
    assert_eq!(u8::from(RgbColor::new(7, 8, 9)), 7);
    assert_eq!(RgbColor::default(), RgbColor::new(0, 0, 0));
}

#[test]
fn component_new_fills_the_emphasis_ramp() {
    let c = ThemeComponent::new(RgbColor::new(1, 2, 3), RgbColor::new(4, 5, 6));
    assert_eq!(c.base, RgbColor::new(1, 2, 3));
    assert_eq!(c.background, RgbColor::new(4, 5, 6));
    assert_eq!(c.emphasis_0, RgbColor::new(255, 255, 255));
    assert_eq!(c.emphasis_1, RgbColor::new(200, 200, 200));
    assert_eq!(c.emphasis_2, RgbColor::new(150, 150, 150));
    assert_eq!(c.emphasis_3, RgbColor::new(100, 100, 100));
    let k = ThemeComponent::default();
    assert_eq!(k.base, RgbColor::new(0, 0, 0));
    assert_eq!(k.emphasis_0, RgbColor::new(0, 0, 0));
}

#[test]
fn component_types_have_labels_and_keys() {
    assert_eq!(ThemeComponentType::TextUnselected.label(), "Text (Unselected)");
    assert_eq!(ThemeComponentType::RibbonSelected.label(), "Ribbon/Tab (Selected)");
    assert_eq!(ThemeComponentType::Player10.label(), "Player 10");
    assert_eq!(ThemeComponentType::FrameHighlight.component_key(), "frame_highlight");
    assert_eq!(ThemeComponentType::ExitCodeError.component_key(), "exit_code_error");
    assert_eq!(ThemeComponentType::Player3.component_key(), "player_3");
}

#[test]
fn all_lists_the_standard_types_and_players_the_rest() {
    let all = ThemeComponentType::all();
    assert_eq!(all.len(), 14);
    assert_eq!(all[0], ThemeComponentType::TextUnselected);
    assert_eq!(all[13], ThemeComponentType::ExitCodeError);
    let players = ThemeComponentType::players();
    assert_eq!(players.len(), 10);
    assert_eq!(players[0], ThemeComponentType::Player1);
    assert_eq!(players[9], ThemeComponentType::Player10);
    assert!(!all.contains(&ThemeComponentType::Player1));
}

#[test]
fn default_theme_sets_every_component() {
    let t = Theme::default();
    assert_eq!(t.name, "default");
    for ty in ThemeComponentType::all().iter().chain(ThemeComponentType::players().iter()) {
        let _ = t.get(*ty);
    }
    assert_eq!(t.get(ThemeComponentType::TextUnselected).base, RgbColor::new(200, 200, 200));
    assert_eq!(t.get(ThemeComponentType::TextUnselected).background, RgbColor::new(30, 30, 30));
    assert_eq!(t.get(ThemeComponentType::FrameHighlight).base, RgbColor::new(255, 200, 100));
    assert_eq!(t.get(ThemeComponentType::Player1).base, RgbColor::new(220, 80, 200));
    assert_eq!(t.get(ThemeComponentType::Player1).background, RgbColor::new(0, 0, 0));
    assert_eq!(t.get(ThemeComponentType::Player10).base, RgbColor::new(150, 100, 70));
}

#[test]
fn get_mut_fills_a_missing_component_with_black() {
    let mut t = Theme::empty(String::from("blank"));
    {
        let c = t.get_mut(ThemeComponentType::TableTitle);
        assert_eq!(*c, ThemeComponent::default());
        c.base = RgbColor::new(9, 9, 9);
    }
    assert_eq!(t.get(ThemeComponentType::TableTitle).base, RgbColor::new(9, 9, 9));
    assert_eq!(t.get(ThemeComponentType::TableTitle).background, RgbColor::new(0, 0, 0));
}

#[test]
fn cloned_theme_equals_the_original() {
    let t = Theme::default();
    let u = t.clone();
    assert_eq!(t, u);
}

#[test]
fn component_keys_are_distinct_snake_case_words() {
    let all: Vec<ThemeComponentType> =
        ThemeComponentType::all().iter().chain(ThemeComponentType::players().iter()).copied().collect();
    for (i, a) in all.iter().enumerate() {
        let k = a.component_key();
        assert!(!k.is_empty());
        assert!(k.chars().all(|c| c.is_ascii_lowercase() || c.is_ascii_digit() || c == '_'));
        for b in all.iter().skip(i + 1) {
            assert_ne!(k, b.component_key());
        }
    }
}

#[test]
fn hex_text_reads_back_without_hash_and_in_uppercase() {
    let c = RgbColor::new(171, 205, 9);
    let h = c.to_hex();
    assert_eq!(RgbColor::from_hex(&h[1..]), Some(c));
    assert_eq!(RgbColor::from_hex(&h.to_uppercase()), Some(c));
}
