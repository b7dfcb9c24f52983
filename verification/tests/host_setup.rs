use wirecube::assets_loader::AssetsLoader;
use wirecube::error::{choose_container, ContainerTarget, InitError};
use wirecube::game::{CANVAS_HEIGHT, CANVAS_WIDTH};

#[test]
fn canvas_dimensions_are_fixed() {
    assert_eq!(CANVAS_WIDTH, 480);
    assert_eq!(CANVAS_HEIGHT, 360);
}

#[test]
fn loader_joins_base_path_and_name() {
    let loader = AssetsLoader::new("/textures/");
    assert_eq!(loader.image_src("cube.png"), "/textures/cube.png");
    assert_eq!(loader.base_path, "/textures/");
}

#[test]
fn loader_defaults_to_the_assets_directory() {
    let loader = AssetsLoader::default();
    assert_eq!(loader.base_path, "/assets/");
    assert_eq!(loader.image_src("a.png"), "/assets/a.png");
}

#[test]
fn container_choice_prefers_the_supplied_element() {
    assert_eq!(choose_container(true, true), Ok(ContainerTarget::Supplied));
    assert_eq!(choose_container(true, false), Ok(ContainerTarget::Supplied));
    assert_eq!(choose_container(false, true), Ok(ContainerTarget::Body));
    assert_eq!(choose_container(false, false), Err(InitError::NoContainer));
}

#[test]
fn error_messages_match_their_variants() {
    assert_eq!(InitError::NoWindow.message(), "no window");
    assert_eq!(InitError::NoDocument.message(), "no document");
    assert_eq!(InitError::NoContainer.message(), "no container");
    assert_eq!(
        InitError::ElementCreationFailed("boom".to_string()).message(),
        "element creation failed\nboom"
    );
    assert_eq!(
        InitError::AppendChildFailed("nope".to_string()).message(),
        "failed to append child\nnope"
    );
}
