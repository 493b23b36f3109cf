use flutter_shell::builder::{ApplicationAttributes, ApplicationBuilder, Backend, Size};

#[test]
fn new_builder_has_nothing_set() {
    let builder = ApplicationBuilder::new();
    assert_eq!(*builder.attributes(), ApplicationAttributes::new());
    let attributes = builder.attributes();
    assert_eq!(attributes.backend, Backend::Sctk);
    assert_eq!(attributes.inner_size, None);
    assert_eq!(attributes.title, None);
    assert_eq!(attributes.app_id, None);
    assert!(attributes.args.is_empty());
    assert!(attributes.assets_path.is_empty());
    assert!(attributes.icu_data_path.is_empty());
    assert!(attributes.persistent_cache_path.is_empty());
    assert!(builder.needs_executable_dir());
    assert!(!builder.needs_cache_dir());
}

#[test]
fn setters_set_their_own_attribute_and_no_other() {
    let builder = ApplicationBuilder::new()
        .with_backend(Backend::Winit)
        .with_inner_size(Size::Physical { width: 800, height: 600 })
        .with_title("Demo".to_string())
        .with_app_id("org.example.demo".to_string())
        .with_assets_path("/srv/assets".to_string())
        .with_icu_data_path("/srv/icudtl.dat".to_string())
        .with_persistent_cache_path("/var/cache/demo".to_string());
    assert_eq!(
        *builder.attributes(),
        ApplicationAttributes {
            backend: Backend::Winit,
            inner_size: Some(Size::Physical { width: 800, height: 600 }),
            title: Some("Demo".to_string()),
            app_id: Some("org.example.demo".to_string()),
            args: Vec::new(),
            assets_path: "/srv/assets".to_string(),
            icu_data_path: "/srv/icudtl.dat".to_string(),
            persistent_cache_path: "/var/cache/demo".to_string(),
        }
    );
    assert!(!builder.needs_executable_dir());
    assert!(!builder.needs_cache_dir());
}

#[test]
fn logical_size_keeps_its_bits() {
    let size = Size::Logical { width_bits: 640.5f64.to_bits(), height_bits: 480.25f64.to_bits() };
    let builder = ApplicationBuilder::new().with_inner_size(size);
    assert_eq!(builder.attributes().inner_size, Some(size));
}

#[test]
fn arguments_are_kept_in_the_order_given() {
    let builder = ApplicationBuilder::new()
        .with_arg("--a".to_string())
        .with_args(vec!["--b".to_string(), "--c".to_string()])
        .with_args(Vec::new())
        .with_arg("--d".to_string());
    assert_eq!(builder.attributes().args, vec!["--a", "--b", "--c", "--d"]);
}

#[test]
fn empty_paths_are_filled_from_the_two_directories() {
    let mut builder = ApplicationBuilder::new().with_app_id("org.example.demo".to_string());
    assert!(builder.needs_cache_dir());
    builder.apply_default_paths(Some("/home/u/.cache".to_string()), Some("/opt/demo".to_string()));
    let attributes = builder.attributes();
    assert_eq!(attributes.persistent_cache_path, "/home/u/.cache/org.example.demo");
    assert_eq!(attributes.assets_path, "/opt/demo/data/flutter_assets");
    assert_eq!(attributes.icu_data_path, "/opt/demo/data/icudtl.dat");
}

#[test]
fn paths_that_are_set_are_kept() {
    let mut builder = ApplicationBuilder::new()
        .with_app_id("org.example.demo".to_string())
        .with_assets_path("/srv/assets".to_string())
        .with_persistent_cache_path("/var/cache/demo".to_string());
    builder.apply_default_paths(Some("/home/u/.cache".to_string()), Some("/opt/demo".to_string()));
    let attributes = builder.attributes();
    assert_eq!(attributes.persistent_cache_path, "/var/cache/demo");
    assert_eq!(attributes.assets_path, "/srv/assets");
    assert_eq!(attributes.icu_data_path, "/opt/demo/data/icudtl.dat");
}

#[test]
fn cache_path_stays_empty_without_application_id_or_cache_directory() {
    let mut anonymous = ApplicationBuilder::new();
    anonymous.apply_default_paths(Some("/home/u/.cache".to_string()), None);
    assert_eq!(anonymous.attributes().persistent_cache_path, "");
    let mut unnamed = ApplicationBuilder::new().with_app_id(String::new());
    unnamed.apply_default_paths(Some("/home/u/.cache".to_string()), None);
    assert_eq!(unnamed.attributes().persistent_cache_path, "");
    let mut homeless = ApplicationBuilder::new().with_app_id("org.example.demo".to_string());
    homeless.apply_default_paths(None, None);
    assert_eq!(homeless.attributes().persistent_cache_path, "");
}

#[test]
fn asset_paths_stay_empty_without_the_executable_directory() {
    let mut builder = ApplicationBuilder::new().with_icu_data_path("/srv/icudtl.dat".to_string());
    builder.apply_default_paths(None, None);
    assert_eq!(builder.attributes().assets_path, "");
    assert_eq!(builder.attributes().icu_data_path, "/srv/icudtl.dat");
}

#[test]
fn build_fills_the_paths_from_the_executable_directory() {
    let attributes = ApplicationBuilder::new()
        .with_title("Demo".to_string())
        .with_persistent_cache_path("/var/cache/demo".to_string())
        .build(Some("/opt/demo".to_string()));
    assert_eq!(attributes.title, Some("Demo".to_string()));
    assert_eq!(attributes.persistent_cache_path, "/var/cache/demo");
    assert_eq!(attributes.assets_path, "/opt/demo/data/flutter_assets");
    assert_eq!(attributes.icu_data_path, "/opt/demo/data/icudtl.dat");
}

#[test]
fn default_paths_leave_a_complete_builder_as_it_is() {
    let mut builder = ApplicationBuilder::new()
        .with_assets_path("/srv/assets".to_string())
        .with_icu_data_path("/srv/icudtl.dat".to_string());
    builder.use_default_paths_if_empty(Some("/opt/demo".to_string()));
    assert_eq!(builder.attributes().assets_path, "/srv/assets");
    assert_eq!(builder.attributes().icu_data_path, "/srv/icudtl.dat");
    assert_eq!(builder.attributes().persistent_cache_path, "");
}

#[test]
fn default_builder_is_the_new_builder() {
    assert_eq!(ApplicationBuilder::default(), ApplicationBuilder::new());
    assert_eq!(ApplicationAttributes::default(), ApplicationAttributes::new());
    let builder = ApplicationBuilder::new().with_title("Demo".to_string());
    assert_eq!(builder.clone(), builder);
}
