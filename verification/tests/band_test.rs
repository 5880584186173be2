use nmrs_gui::ui::{band_of, freq_to_band, Band};

#[test]
fn bands_by_frequency() {
    assert_eq!(freq_to_band(2412), Some("2.4GHz"));
    assert_eq!(freq_to_band(2400), Some("2.4GHz"));
    assert_eq!(freq_to_band(2500), Some("2.4GHz"));
    assert_eq!(freq_to_band(2501), None);
    assert_eq!(freq_to_band(5149), None);
    assert_eq!(freq_to_band(5150), Some("5GHz"));
    assert_eq!(freq_to_band(5925), Some("5GHz"));
    assert_eq!(freq_to_band(5926), Some("6GHz"));
    assert_eq!(freq_to_band(7125), Some("6GHz"));
    assert_eq!(freq_to_band(7126), None);
    assert_eq!(freq_to_band(0), None);
    assert_eq!(band_of(5180), Some(Band::Ghz5));
}

#[test]
fn band_labels_differ() {
    let labels = [Band::Ghz2_4.label(), Band::Ghz5.label(), Band::Ghz6.label()];
    assert_ne!(labels[0], labels[1]);
    assert_ne!(labels[1], labels[2]);
    assert_ne!(labels[0], labels[2]);
}
