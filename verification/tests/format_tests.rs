use wall_a_bunga::style::inactive_style;
use wall_a_bunga::style::Button;
use wall_a_bunga::utils::trendy_number_format;

#[test]
fn num_format_test() {
    assert_eq!(trendy_number_format(12300), "12.3k");
    assert_eq!(trendy_number_format(12012), "12.0k");
    assert_eq!(trendy_number_format(1200000), "1.2m");
    assert_eq!(trendy_number_format(10001), "10.0k");
    assert_eq!(trendy_number_format(1), "1");
}

#[test]
fn num_format_boundaries() {
    assert_eq!(trendy_number_format(0), "0");
    assert_eq!(trendy_number_format(999), "999");
    assert_eq!(trendy_number_format(1000), "1.0k");
    assert_eq!(trendy_number_format(999949), "999.9k");
    assert_eq!(trendy_number_format(1000000), "1.0m");
    assert_eq!(trendy_number_format(2500000000), "2.5b");
}

#[test]
fn num_format_rounds_halves_up() {
    assert_eq!(trendy_number_format(12350), "12.4k");
    assert_eq!(trendy_number_format(12349), "12.3k");
}

#[test]
fn default_button_style_is_primary() {
    assert_eq!(Button::default(), Button::Primary);
}

#[test]
fn toggle_style_dims_inactive_buttons() {
    assert_eq!(inactive_style(true), Button::Primary);
    assert_eq!(inactive_style(false), Button::Inactive);
}
