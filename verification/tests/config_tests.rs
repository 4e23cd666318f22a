use image_watcher::config::{
    parse_config, ConfigError, ConfigValue, FilterKind, Size,
};

fn mapping(entries: Vec<(&str, ConfigValue)>) -> ConfigValue {
    ConfigValue::Mapping(
        entries
            .into_iter()
            .map(|(k, v)| (k.to_string(), v))
            .collect(),
    )
}

fn s(v: &str) -> ConfigValue {
    ConfigValue::Str(v.to_string())
}

fn doc(global: Vec<(&str, ConfigValue)>, files: Vec<ConfigValue>) -> ConfigValue {
    let mut entries = global;
    entries.push(("files", ConfigValue::List(files)));
    mapping(entries)
}

#[test]
fn output_defaults_to_derived_path() {
    let d = doc(
        vec![],
        vec![mapping(vec![
            ("path", s("imgs/photo.jpg")),
            ("width", ConfigValue::Int(100)),
        ])],
    );
    let settings = parse_config(&d).unwrap();
    assert_eq!(settings.files_list.len(), 1);
    assert_eq!(settings.files_list[0].path, "imgs/photo.jpg");
    assert_eq!(settings.files_list[0].output, "imgs/photo.min.jpg");
}

#[test]
fn output_defaults_without_parent() {
    let d = doc(vec![], vec![mapping(vec![("path", s("a.png"))])]);
    let settings = parse_config(&d).unwrap();
    assert_eq!(settings.files_list[0].output, "a.min.png");
}

#[test]
fn explicit_output_is_kept_exactly() {
    let d = doc(
        vec![],
        vec![mapping(vec![
            ("path", s("imgs/photo.jpg")),
            ("output", s("elsewhere/result.png")),
        ])],
    );
    let settings = parse_config(&d).unwrap();
    assert_eq!(settings.files_list[0].output, "elsewhere/result.png");
}

#[test]
fn path_without_extension_is_rejected() {
    let d = doc(vec![], vec![mapping(vec![("path", s("noext"))])]);
    assert_eq!(
        parse_config(&d).unwrap_err(),
        ConfigError::MalformedPath("noext".to_string())
    );
}

#[test]
fn absent_fields_fall_back_to_global_defaults() {
    let d = doc(
        vec![
            ("blur", ConfigValue::Real("2.5".to_string())),
            ("rotate90", ConfigValue::Bool(true)),
            ("resize_filter", s("Nearest")),
            ("width", ConfigValue::Int(640)),
        ],
        vec![mapping(vec![("path", s("a.png"))])],
    );
    let settings = parse_config(&d).unwrap();
    let file = &settings.files_list[0];
    assert_eq!(file.other.jobs.blur, Some("2.5".to_string()));
    assert!(file.other.jobs.rotate90);
    assert_eq!(file.other.resize_filter, Some(FilterKind::Nearest));
    assert_eq!(
        file.other.jobs.resize.map(|r| r.size),
        Some(Size::Width(640))
    );
}

#[test]
fn per_file_fields_override_global_defaults() {
    let d = doc(
        vec![
            ("blur", ConfigValue::Real("2.5".to_string())),
            ("rotate90", ConfigValue::Bool(true)),
        ],
        vec![mapping(vec![
            ("path", s("a.png")),
            ("blur", ConfigValue::Real("1".to_string())),
            ("rotate90", ConfigValue::Bool(false)),
        ])],
    );
    let settings = parse_config(&d).unwrap();
    let file = &settings.files_list[0];
    assert_eq!(file.other.jobs.blur, Some("1".to_string()));
    assert!(!file.other.jobs.rotate90);
}

#[test]
fn own_dimension_shuts_out_global_dimensions() {
    // The resize dimensions fall back as one field: an entry that sets one
    // of them takes its resize entirely from its own keys.
    let d = doc(
        vec![("width", ConfigValue::Int(100))],
        vec![mapping(vec![
            ("path", s("a.png")),
            ("height", ConfigValue::Int(50)),
        ])],
    );
    let settings = parse_config(&d).unwrap();
    assert_eq!(
        settings.files_list[0].other.jobs.resize.map(|r| r.size),
        Some(Size::Height(50))
    );
}

#[test]
fn absent_dimensions_inherit_the_global_pair() {
    let d = doc(
        vec![
            ("width", ConfigValue::Int(100)),
            ("height", ConfigValue::Int(50)),
        ],
        vec![mapping(vec![("path", s("a.png"))])],
    );
    let settings = parse_config(&d).unwrap();
    assert_eq!(
        settings.files_list[0].other.jobs.resize.map(|r| r.size),
        Some(Size::WidthHeight(100, 50))
    );
}

#[test]
fn dimension_variants() {
    let d = doc(
        vec![],
        vec![
            mapping(vec![("path", s("a.png")), ("width", ConfigValue::Int(10))]),
            mapping(vec![("path", s("b.png")), ("height", ConfigValue::Int(20))]),
            mapping(vec![
                ("path", s("c.png")),
                ("width", ConfigValue::Int(10)),
                ("height", ConfigValue::Int(20)),
            ]),
            mapping(vec![("path", s("d.png"))]),
        ],
    );
    let settings = parse_config(&d).unwrap();
    let sizes: Vec<Option<Size>> = settings
        .files_list
        .iter()
        .map(|f| f.other.jobs.resize.map(|r| r.size))
        .collect();
    assert_eq!(sizes[0], Some(Size::Width(10)));
    assert_eq!(sizes[1], Some(Size::Height(20)));
    assert_eq!(sizes[2], Some(Size::WidthHeight(10, 20)));
    assert_eq!(sizes[3], None);
}

#[test]
fn unknown_filter_names_the_offending_value() {
    let d = doc(
        vec![],
        vec![mapping(vec![
            ("path", s("a.png")),
            ("width", ConfigValue::Int(10)),
            ("resize_filter", s("Bicubic")),
        ])],
    );
    assert_eq!(
        parse_config(&d).unwrap_err(),
        ConfigError::UnknownFilter("Bicubic".to_string())
    );
}

#[test]
fn filter_without_dimensions_is_rejected() {
    let d = doc(
        vec![],
        vec![mapping(vec![
            ("path", s("a.png")),
            ("resize_filter", s("Nearest")),
        ])],
    );
    assert_eq!(
        parse_config(&d).unwrap_err(),
        ConfigError::MissingDimensions
    );
}

#[test]
fn every_known_filter_is_accepted() {
    let names = [
        ("Nearest", FilterKind::Nearest),
        ("Triangle", FilterKind::Triangle),
        ("CatmullRom", FilterKind::CatmullRom),
        ("Gaussian", FilterKind::Gaussian),
        ("Lanczos3", FilterKind::Lanczos3),
    ];
    for (name, kind) in names {
        let d = doc(
            vec![],
            vec![mapping(vec![
                ("path", s("a.png")),
                ("width", ConfigValue::Int(10)),
                ("resize_filter", s(name)),
            ])],
        );
        let settings = parse_config(&d).unwrap();
        assert_eq!(settings.files_list[0].other.resize_filter, Some(kind));
    }
}

#[test]
fn negative_width_is_rejected() {
    let d = doc(
        vec![],
        vec![mapping(vec![
            ("path", s("a.png")),
            ("width", ConfigValue::Int(-1)),
        ])],
    );
    assert_eq!(
        parse_config(&d).unwrap_err(),
        ConfigError::InvalidField("width".to_string())
    );
}

#[test]
fn oversized_height_is_rejected() {
    let d = doc(
        vec![],
        vec![mapping(vec![
            ("path", s("a.png")),
            ("height", ConfigValue::Int(5_000_000_000)),
        ])],
    );
    assert_eq!(
        parse_config(&d).unwrap_err(),
        ConfigError::InvalidField("height".to_string())
    );
}

#[test]
fn non_boolean_flag_is_rejected() {
    let d = doc(
        vec![],
        vec![mapping(vec![
            ("path", s("a.png")),
            ("flipv", ConfigValue::Int(1)),
        ])],
    );
    assert_eq!(
        parse_config(&d).unwrap_err(),
        ConfigError::InvalidField("flipv".to_string())
    );
}

#[test]
fn integer_blur_is_rejected() {
    let d = doc(
        vec![],
        vec![mapping(vec![
            ("path", s("a.png")),
            ("blur", ConfigValue::Int(3)),
        ])],
    );
    assert_eq!(
        parse_config(&d).unwrap_err(),
        ConfigError::InvalidField("blur".to_string())
    );
}

#[test]
fn missing_path_is_rejected() {
    let d = doc(vec![], vec![mapping(vec![("width", ConfigValue::Int(10))])]);
    assert_eq!(
        parse_config(&d).unwrap_err(),
        ConfigError::MissingField("path".to_string())
    );
}

#[test]
fn document_must_be_a_mapping() {
    let d = ConfigValue::List(vec![]);
    assert_eq!(
        parse_config(&d).unwrap_err(),
        ConfigError::MalformedStructure("document".to_string())
    );
}

#[test]
fn files_section_is_required() {
    let d = mapping(vec![]);
    assert_eq!(
        parse_config(&d).unwrap_err(),
        ConfigError::MissingField("files".to_string())
    );
}

#[test]
fn files_section_must_be_a_list() {
    let d = mapping(vec![("files", ConfigValue::Int(3))]);
    assert_eq!(
        parse_config(&d).unwrap_err(),
        ConfigError::MalformedStructure("files".to_string())
    );
}

#[test]
fn entry_shape_is_checked_before_entry_fields() {
    // The second entry is no mapping; that is reported even though the
    // first entry is missing its path.
    let d = doc(
        vec![],
        vec![mapping(vec![]), ConfigValue::Int(5)],
    );
    assert_eq!(
        parse_config(&d).unwrap_err(),
        ConfigError::MalformedStructure("file".to_string())
    );
}

#[test]
fn global_defaults_are_resolved_for_settings() {
    let d = doc(
        vec![
            ("grayscale", ConfigValue::Bool(true)),
            ("resize_filter", s("Triangle")),
        ],
        vec![mapping(vec![
            ("path", s("a.png")),
            ("width", ConfigValue::Int(10)),
        ])],
    );
    let settings = parse_config(&d).unwrap();
    assert!(settings.other.jobs.grayscale);
    assert_eq!(settings.other.resize_filter, Some(FilterKind::Triangle));
    assert_eq!(settings.other.jobs.resize, None);
}
