use mydex::error::AppError;

#[test]
fn client_errors_have_their_status() {
    assert_eq!(AppError::NotFound.status_code(), 404);
    assert_eq!(AppError::Unauthorized.status_code(), 401);
    assert_eq!(AppError::AlreadyExists.status_code(), 400);
}

#[test]
fn client_errors_have_their_message() {
    assert_eq!(AppError::NotFound.user_facing_error(), "Not Found");
    assert_eq!(AppError::Unauthorized.user_facing_error(), "Unauthorized");
    assert_eq!(AppError::AlreadyExists.user_facing_error(), "The resource already exists");
}

#[test]
fn internal_errors_hide_detail() {
    let store = AppError::Sqlx { source: sqlx::Error::RowNotFound };
    assert_eq!(store.status_code(), 500);
    assert_eq!(store.user_facing_error(), "Internal Server Error");
    let template = AppError::TemplateRender(askama::Error::Fmt(std::fmt::Error));
    assert_eq!(template.status_code(), 500);
    assert_eq!(template.user_facing_error(), "Internal Server Error");
}
