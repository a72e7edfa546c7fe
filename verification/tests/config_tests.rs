use bender_config::config::Config;

#[test]
fn is_default() {
    let c = Config::default();
    assert_eq!(c.is_default(), true);
}

#[test]
fn serialize_deserialize() {
    let c = Config::default();
    match c.serialize() {
        Ok(serialized) => {
            match Config::deserialize(&serialized) {
                Ok(deserialized) => assert_eq!(c, deserialized),
                Err(err) => println!("Error while deserializing serialized: {:?}", err),
            }
        },
        Err(err) => println!("Error while serializing c: {:?}", err),
    }
}

#[test]
fn serialize_deserialize_u8() {
    let c = Config::default();
    match c.serialize_to_u8() {
        Ok(serialized) => {
            match Config::deserialize_from_u8(&serialized) {
                Ok(deserialized) => assert_eq!(c, deserialized),
                Err(err) => println!("Error while deserializing serialized: {:?}", err),
            }
        },
        Err(err) => println!("Error while serializing c: {:?}", err),
    }
}

#[test]
fn default_values() {
    let c = Config::default();
    assert_eq!(c.servername, "bender.render");
    assert_eq!(c.paths.config, "/etc/bender/config.toml");
    assert_eq!(c.paths.private, "/var/lib/flask/private");
    assert_eq!(c.paths.upload, "/data/bender");
    assert_eq!(c.flaskbender.upload_limit, 2);
    assert_eq!(c.flaskbender.upload_url, "http://localhost:5000/blendfiles/");
    assert_eq!(c.flaskbender.job_cookie_name, "bender-renderjobs");
    assert_eq!(c.rabbitmq.url, "amqp://localhost//");
    assert_eq!(c.janitor.checking_period_seconds, 60);
    assert_eq!(c.janitor.error_deletion_min_minutes, 1440);
    assert_eq!(c.janitor.error_deletion_max_minutes, 20160);
    assert_eq!(c.janitor.finish_deletion_min_minutes, 1440);
    assert_eq!(c.janitor.finish_deletion_max_minutes, 20160);
    assert_eq!(c.janitor.cancel_deletion_min_minutes, 15);
    assert_eq!(c.janitor.cancel_deletion_max_minutes, 15);
    assert_eq!(c.worker.id, "00000000-0000-0000-0000-000000000000");
    assert_eq!(c.worker.disklimit, 2);
    assert_eq!(c.worker.grace_period, 60);
    assert_eq!(c.worker.workload, 1);
    assert_eq!(c.worker.heart_rate_seconds, 10);
}

#[test]
fn not_default_after_change() {
    let mut c = Config::default();
    c.servername = "other".to_string();
    assert_eq!(c.is_default(), false);
}

#[test]
fn location_is_default_config_path() {
    assert_eq!(Config::location(), "/etc/bender/config.toml");
}

#[test]
fn appsecret_path_under_private() {
    let c = Config::default();
    assert_eq!(c.get_appsecret_path(), "/var/lib/flask/private/app.secret");
}

#[test]
fn blend_and_frames_under_upload() {
    let c = Config::default();
    assert_eq!(c.paths.blend(), "/data/bender/blendfiles");
    assert_eq!(c.paths.frames(), "/data/bender/frames");
}

#[test]
fn path_output_interpretation() {
    // a reported error is passed through for the caller to show
    assert!(bender_config::config::path_output_usable("Error: no config", false));
    // a clean path that exists is taken
    assert!(bender_config::config::path_output_usable("/etc/bender/config.toml", true));
    // a clean path with nothing behind it is refused
    assert!(!bender_config::config::path_output_usable("/etc/bender/config.toml", false));
}
