use iced_sctk::application;
use iced_sctk::Error;

fn require_send_sync<T: Send + Sync>() {}

#[test]
fn assert_send_sync() {
    require_send_sync::<Error<String>>();
    require_send_sync::<application::Error<String>>();
}

#[test]
fn graphics_error_converts() {
    let e: Error<String> = Error::from(String::from("no adapter"));
    assert!(matches!(e, Error::GraphicsCreationFailed(ref s) if s == "no adapter"));
    let top: application::Error<String> = application::Error::from(e);
    assert!(matches!(top, application::Error::GraphicsCreationFailed(ref s) if s == "no adapter"));
}

#[test]
fn executor_error_converts() {
    let io = std::io::Error::new(std::io::ErrorKind::Other, "executor");
    let e: Error<String> = Error::ExecutorCreationFailed(io);
    let top: application::Error<String> = application::Error::from(e);
    assert!(matches!(top, application::Error::ExecutorCreationFailed(_)));
}
