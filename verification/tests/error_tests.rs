use home_app::error::AppError;
use home_app::window_event::WindowEvent;
use home_app::window_event::WindowType;

#[test]
fn error_messages_render() {
    assert_eq!(AppError::MqttServerNoConfig.message(), "Mqtt服务未配置");
    assert_eq!(AppError::Unknown.message(), "未知错误, 请联系开发人员.");
    assert_eq!(AppError::from("boom".to_string()).message(), "boom");
}

#[test]
fn error_equality_compares_the_carried_message() {
    assert_eq!(AppError::Error("a".to_string()), AppError::Error("a".to_string()));
    assert_ne!(AppError::Error("a".to_string()), AppError::Error("b".to_string()));
    assert_ne!(AppError::Unknown, AppError::MqttServerNoConfig);
    assert_eq!(AppError::Unknown, AppError::Unknown);
}

#[test]
fn window_events_and_modes_compare_structurally() {
    assert_eq!(WindowEvent::Fullscreen, WindowEvent::Fullscreen);
    assert_ne!(WindowEvent::Exit, WindowEvent::Minimize);
    assert_eq!(WindowType::Windowed, WindowType::Windowed);
    assert_ne!(WindowType::Fullscreen, WindowType::BorderlessFullscreen);
}
