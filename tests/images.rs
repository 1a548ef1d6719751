use house_keeper::error::AppError;
use house_keeper::images::{get_content_type, image_name, image_path, new_upload_name, upload_name};

#[test]
fn content_types() {
    assert_eq!(get_content_type("a.jpg"), "image/jpeg");
    assert_eq!(get_content_type("a.jpeg"), "image/jpeg");
    assert_eq!(get_content_type("a.png"), "image/png");
    assert_eq!(get_content_type("a.gif"), "image/gif");
    assert_eq!(get_content_type("a.JPG"), "application/octet-stream");
    assert_eq!(get_content_type("noext"), "application/octet-stream");
}

#[test]
fn stored_image_names() {
    assert_eq!(image_name("abc", "photo.png"), "abc.png");
    assert_eq!(image_name("abc", "photo"), "abc.");
    assert_eq!(upload_name("image", Some("cat.gif"), "id1"), Ok("id1.gif".to_string()));
    assert_eq!(upload_name("file", Some("cat.gif"), "id1"), Err(AppError::ParameterError));
    assert_eq!(upload_name("image", None, "id1"), Err(AppError::ParameterError));
}

#[test]
fn fresh_upload_names() {
    let n = new_upload_name("image", Some("x.png")).unwrap();
    assert_eq!(n.len(), 40);
    assert!(n.ends_with(".png"));
    assert_eq!(new_upload_name("other", Some("x.png")), Err(AppError::ParameterError));
}

#[test]
fn image_paths() {
    assert_eq!(image_path("abc.png"), Ok("images/abc.png".to_string()));
    assert_eq!(image_path(".."), Err(AppError::ParameterError));
    assert_eq!(image_path("a/b.png"), Err(AppError::ParameterError));
    assert_eq!(image_path(""), Err(AppError::ParameterError));
}
