use print_queue::labels::{
    epson_color_matching_label, epson_color_settings_label, epson_expansion_label,
    epson_media_type_label, epson_on_off_label, epson_quality_label, humanize_choice_value,
    humanize_option_key, humanize_page_size, humanize_psk_key, split_kebab_case, split_pascal_case,
};

#[test]
fn epson_code_tables() {
    assert_eq!(epson_quality_label("307"), Some("Best Quality"));
    assert_eq!(epson_quality_label("308"), Some("Draft"));
    assert_eq!(epson_quality_label("301"), None);
    assert_eq!(epson_expansion_label("2"), Some("Standard"));
    assert_eq!(epson_expansion_label("3"), None);
    assert_eq!(epson_on_off_label("2"), Some("On (Low Noise)"));
    assert_eq!(epson_color_matching_label("2"), Some("ColorSync (macOS)"));
    assert_eq!(epson_color_matching_label("0"), None);
    assert_eq!(epson_color_settings_label("3"), Some("Off (No Color Adjustment)"));
    assert_eq!(epson_color_settings_label("2"), None);
    assert_eq!(epson_media_type_label("159"), Some("Ultra Premium Photo Paper Luster"));
    assert_eq!(epson_media_type_label("1"), None);
}

#[test]
fn pascal_and_kebab_case() {
    assert_eq!(split_pascal_case("PageMediaSize"), "Page Media Size");
    assert_eq!(split_pascal_case("ISOA4"), "ISOA4");
    assert_eq!(split_pascal_case("EPIJ_Qual"), "EPIJ_Qual");
    assert_eq!(split_pascal_case(""), "");
    assert_eq!(split_pascal_case("éÉ"), "é É");
    assert_eq!(split_kebab_case("premium-glossy-photo"), "Premium Glossy Photo");
    assert_eq!(split_kebab_case("a--b"), "A  B");
    assert_eq!(split_kebab_case("ßtraße"), "SStraße");
    assert_eq!(split_kebab_case(""), "");
}

#[test]
fn option_keys() {
    assert_eq!(humanize_option_key("PageSize"), "Paper Size");
    assert_eq!(humanize_option_key("COLORMODEL"), "Color Mode");
    assert_eq!(humanize_option_key("cupsPrintQuality"), "Print Quality");
    assert_eq!(humanize_option_key("MediaSource"), "Media Source");
}

#[test]
fn psk_keys() {
    assert_eq!(humanize_psk_key("psk:PageMediaSize"), "Page Media Size");
    assert_eq!(humanize_psk_key("ns0000:JobInputBin"), "Job Input Bin");
    assert_eq!(humanize_psk_key("psk:ns0000:PageQuality"), "Page Quality");
    assert_eq!(humanize_psk_key("Plain"), "Plain");
}

#[test]
fn choice_values() {
    assert_eq!(humanize_choice_value("psk:None"), "Off");
    assert_eq!(humanize_choice_value("DuplexTumble"), "Short Edge");
    assert_eq!(humanize_choice_value("stationery"), "Plain Paper");
    assert_eq!(humanize_choice_value("CMYK"), "Color (CMYK)");
    assert_eq!(humanize_choice_value("com.epson-premium-glossy"), "Premium Glossy");
    assert_eq!(humanize_choice_value("4x6.Fullbleed"), "4x6 (Borderless)");
    assert_eq!(humanize_choice_value("Fullbleed"), "Fullbleed");
    assert_eq!(humanize_choice_value("custom"), "custom");
}

#[test]
fn page_sizes() {
    assert_eq!(humanize_page_size("Letter"), "Letter (8.5x11)");
    assert_eq!(humanize_page_size("EPKG.NMgn"), "KG / 4x6 (Borderless)");
    assert_eq!(humanize_page_size("A4.ManuFeedBM20mm"), "A4 (Manual Feed)");
    assert_eq!(humanize_page_size("EP216x330mm.ManuCDR"), "216x330mm (CD/DVD Tray)");
    assert_eq!(humanize_page_size("4x6.Fullbleed"), "4x6 (Borderless)");
    assert_eq!(humanize_page_size("Custom.4x6in"), "Custom Size");
    assert_eq!(humanize_page_size("EPFoo"), "Foo");
    assert_eq!(humanize_page_size("101.6x180.6mm"), "101.6x180.6mm");
    assert_eq!(humanize_page_size("Env10"), "#10 Envelope");
}

#[test]
fn law_page_size_suffixes() {
    for b in ["A4", "EPKG", "EP216x330mm", "101.6x180.6mm", "Letter", ""] {
        assert_eq!(humanize_page_size(&format!("{}.NMgn", b)), format!("{} (Borderless)", humanize_page_size(b)));
        assert_eq!(humanize_page_size(&format!("{}.Fullbleed", b)), format!("{} (Borderless)", humanize_page_size(b)));
        assert_eq!(humanize_page_size(&format!("{}.ManuCDR", b)), format!("{} (CD/DVD Tray)", humanize_page_size(b)));
    }
}
