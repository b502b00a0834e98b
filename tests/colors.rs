use termsonic::canvas::Color;
use termsonic::colors::{
    check_color_list, color_for_lowercase, color_list, default_color_names, ColorScheme,
};

#[test]
fn lowercase_names_map_to_colors() {
    assert_eq!(color_for_lowercase(&"red".to_string()), Some(Color::Red));
    assert_eq!(color_for_lowercase(&"darkblue".to_string()), Some(Color::DarkBlue));
    assert_eq!(color_for_lowercase(&"dark_blue".to_string()), Some(Color::DarkBlue));
    assert_eq!(color_for_lowercase(&"gray".to_string()), Some(Color::Grey));
    assert_eq!(color_for_lowercase(&"RED".to_string()), None);
    assert_eq!(color_for_lowercase(&"light_red".to_string()), None);
}

#[test]
fn color_names_ignore_letter_case() {
    assert_eq!(ColorScheme::parse_color_name("RED"), Ok(Color::Red));
    assert_eq!(ColorScheme::parse_color_name("Dark_Magenta"), Ok(Color::DarkMagenta));
    assert_eq!(ColorScheme::parse_color_name("grey"), Ok(Color::Grey));
}

#[test]
fn unknown_color_name_is_reported() {
    assert_eq!(
        ColorScheme::parse_color_name("Purple"),
        Err("Unknown color name: Purple".to_string())
    );
}

#[test]
fn scheme_from_names_keeps_their_order() {
    let names = vec!["Blue".to_string(), "green".to_string(), "darkred".to_string()];
    let scheme = ColorScheme::from_names(&names).unwrap();
    assert_eq!(scheme.colors(), &[Color::Blue, Color::Green, Color::DarkRed]);
}

#[test]
fn scheme_from_names_fails_on_the_first_unknown_name() {
    let names = vec!["red".to_string(), "mauve".to_string(), "teal".to_string()];
    let err = ColorScheme::from_names(&names).unwrap_err();
    assert_eq!(err, "Unknown color name: mauve");
}

#[test]
fn default_gradient_runs_warm_to_cool() {
    let expected = [Color::Red, Color::Yellow, Color::Green, Color::Cyan, Color::Blue];
    assert_eq!(ColorScheme::default().colors(), &expected);
    assert_eq!(ColorScheme::from_names(&[]).unwrap().colors(), &expected);
    assert_eq!(ColorScheme::gradient(Vec::new()).colors(), &expected);
    assert_eq!(ColorScheme::gradient(vec![Color::White]).colors(), &[Color::White]);
    assert_eq!(ColorScheme::new(Vec::new()).colors().len(), 0);
}

#[test]
fn color_list_is_split_trimmed_and_lowercased() {
    assert_eq!(color_list(" Red, green ,BLUE"), vec!["red", "green", "blue"]);
    assert_eq!(color_list("\u{3000}Cyan\t"), vec!["cyan"]);
    assert_eq!(color_list("a,,b"), vec!["a", "", "b"]);
    assert_eq!(color_list(""), vec![""]);
}

#[test]
fn color_list_check_names_the_first_bad_entry() {
    assert_eq!(check_color_list("red, Light_Red ,grey"), Ok(()));
    assert_eq!(
        check_color_list("red,Purple,teal"),
        Err("Invalid color 'purple'. Valid colors are: black, red, green, yellow, blue, magenta, cyan, white, dark_grey, light_red, light_green, light_yellow, light_blue, light_magenta, light_cyan, grey".to_string())
    );
    assert!(check_color_list("").is_err());
}

#[test]
fn default_color_names_match_the_default_gradient() {
    let names = default_color_names();
    assert_eq!(names, vec!["red", "yellow", "green", "cyan", "blue"]);
    let scheme = ColorScheme::from_names(&names).unwrap();
    assert_eq!(scheme.colors(), ColorScheme::default().colors());
}
