use cashwises::handlers::image_handler::{image_file_path, legal_image_type, UploadAction, UploadPlan};

fn saved(action: UploadAction) -> (String, String) {
    match action {
        UploadAction::Save { file_path, destination } => (file_path, destination),
        UploadAction::Skip => panic!("skipped"),
        UploadAction::MissingFileName => panic!("no file name"),
    }
}

#[test]
fn legal_types_are_png_jpeg_gif() {
    assert!(legal_image_type("image/png"));
    assert!(legal_image_type("image/jpeg"));
    assert!(legal_image_type("image/gif"));
    assert!(!legal_image_type("image/webp"));
    assert!(!legal_image_type("image/png; charset=utf-8"));
    assert!(!legal_image_type("text/plain"));
}

#[test]
fn many_upload_saves_up_to_three_newest_first() {
    let mut plan = UploadPlan::for_many("shop");
    assert_eq!(plan.order_dir(), "./uploads/shop/");
    assert!(plan.size_allowed(5_000_000));
    assert!(!plan.size_allowed(5_000_001));
    assert!(matches!(plan.on_field(Some("text/plain"), Some("a.txt")), UploadAction::Skip));
    assert!(matches!(plan.on_field(None, Some("a.png")), UploadAction::Skip));
    let (p, d) = saved(plan.on_field(Some("image/png"), Some("a.png")));
    assert_eq!((p.as_str(), d.as_str()), ("shop/a.png", "./uploads/shop/a.png"));
    saved(plan.on_field(Some("image/jpeg"), Some("b.jpg")));
    assert!(plan.wants_more());
    saved(plan.on_field(Some("image/gif"), Some("c.gif")));
    assert!(!plan.wants_more());
    assert_eq!(plan.paths(), &vec!["shop/c.gif".to_string(), "shop/b.jpg".to_string(), "shop/a.png".to_string()]);
}

#[test]
fn field_without_file_name_is_reported() {
    let mut plan = UploadPlan::for_many("x");
    assert!(matches!(plan.on_field(Some("image/png"), None), UploadAction::MissingFileName));
    assert!(plan.paths().is_empty());
}

#[test]
fn single_upload_takes_the_first_field_of_any_type() {
    let mut plan = UploadPlan::for_one("docs");
    assert_eq!(plan.single_path(), "");
    assert!(plan.size_allowed(20_000_000));
    assert!(!plan.size_allowed(20_000_001));
    let (p, d) = saved(plan.on_field(Some("application/pdf"), Some("f.pdf")));
    assert_eq!((p.as_str(), d.as_str()), ("docs/f.pdf", "./uploads/docs/f.pdf"));
    assert!(!plan.wants_more());
    assert_eq!(plan.single_path(), "docs/f.pdf");
}

#[test]
fn image_paths_are_under_uploads() {
    assert_eq!(image_file_path("shop/a.png"), "./uploads/shop/a.png");
}
