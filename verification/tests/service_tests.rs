use home_app::error::AppError;
use home_app::service::MqttConfig;
use home_app::service::MqttServer;

#[test]
fn start_with_empty_config_is_rejected() {
    let mut server = MqttServer::new(MqttConfig::default());
    let err = server.start().unwrap_err();
    assert!(matches!(err, AppError::MqttServerNoConfig));
    assert!(!server.is_running());
}

#[test]
fn start_with_an_endpoint_records_a_running_handle() {
    let config = MqttConfig { servers: vec!["127.0.0.1:1883".to_string()] };
    let mut server = MqttServer::new(config);
    assert!(server.start().is_ok());
    assert!(server.is_running());
}

#[test]
fn stop_is_advisory_and_does_not_end_the_run() {
    let config = MqttConfig { servers: vec!["127.0.0.1:1883".to_string()] };
    let mut server = MqttServer::new(config);
    server.start().unwrap();
    server.stop();
    assert!(server.is_running(), "stop only raises the cooperative flag");
    server.mark_finished();
    assert!(!server.is_running());
}

#[test]
fn idle_supervisor_is_not_running() {
    let server = MqttServer::new(MqttConfig::default());
    assert!(!server.is_running());
}
