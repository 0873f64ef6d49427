use golob_plugin::error::Error;
use golob_plugin::instance::{Instance, INSTANCE_VERSION};
use golob_plugin::job::JobId;

fn sample() -> Instance {
    Instance {
        id: 5,
        src: Some(String::from("ab")),
        venv_path: None,
        last_known_path: Some(String::from("/p/s.py")),
        active_job: Some(JobId { raw: 3 }),
    }
}

fn sample_payload() -> Vec<u8> {
    let mut bytes = Vec::new();
    bytes.extend_from_slice(&5u64.to_le_bytes());
    bytes.push(1);
    bytes.extend_from_slice(&2u64.to_le_bytes());
    bytes.extend_from_slice(b"ab");
    bytes.push(0);
    bytes.push(1);
    bytes.extend_from_slice(&7u64.to_le_bytes());
    bytes.extend_from_slice(b"/p/s.py");
    bytes.push(1);
    bytes.extend_from_slice(&3u64.to_le_bytes());
    bytes
}

#[test]
fn flatten_stores_under_version_one() {
    let (version, _) = sample().flatten().unwrap();
    assert_eq!(version, 1);
    assert_eq!(INSTANCE_VERSION, 1);
}

#[test]
fn flatten_writes_the_fields_in_order() {
    let (_, bytes) = sample().flatten().unwrap();
    assert_eq!(bytes, sample_payload());
}

#[test]
fn unflatten_reads_the_fields_in_order() {
    let loaded = Instance::unflatten(1, &sample_payload()).unwrap();
    assert_eq!(loaded, sample());
}

#[test]
fn unflatten_gives_back_what_flatten_stored() {
    let instances = vec![
        Instance::default(),
        sample(),
        Instance {
            id: usize::MAX,
            src: Some(String::from("def render(ctx):\n    return ctx.frame  # \u{1F40D}\n")),
            venv_path: Some(String::from("C:\\venvs\\golob")),
            last_known_path: Some(String::new()),
            active_job: Some(JobId { raw: u64::MAX }),
        },
        Instance {
            id: 1,
            src: None,
            venv_path: Some(String::from("/home/user/.venv")),
            last_known_path: None,
            active_job: None,
        },
    ];
    for instance in instances {
        let (version, bytes) = instance.flatten().unwrap();
        let loaded = Instance::unflatten(version, &bytes).unwrap();
        assert_eq!(loaded.src, instance.src);
        assert_eq!(loaded.venv_path, instance.venv_path);
        assert_eq!(loaded.last_known_path, instance.last_known_path);
        assert_eq!(loaded, instance);
    }
}

#[test]
fn unflatten_refuses_every_other_version() {
    let (_, bytes) = sample().flatten().unwrap();
    for version in [0u16, 2, 3, 255, 256, u16::MAX] {
        assert_eq!(Instance::unflatten(version, &bytes), Err(Error::DeserializationError));
    }
    assert_eq!(Instance::unflatten(2, &[]), Err(Error::DeserializationError));
}

#[test]
fn unflatten_refuses_bytes_that_are_no_instance() {
    assert_eq!(Instance::unflatten(1, &[]), Err(Error::DeserializationError));
    assert_eq!(Instance::unflatten(1, &[1, 2, 3]), Err(Error::DeserializationError));
    let payload = sample_payload();
    assert_eq!(
        Instance::unflatten(1, &payload[..payload.len() - 1]),
        Err(Error::DeserializationError)
    );
    let mut bad_tag = payload.clone();
    bad_tag[8] = 2;
    assert_eq!(Instance::unflatten(1, &bad_tag), Err(Error::DeserializationError));
    let mut bad_text = payload.clone();
    bad_text[17] = 0xff;
    assert_eq!(Instance::unflatten(1, &bad_text), Err(Error::DeserializationError));
    let mut long_text = payload;
    long_text[9..17].copy_from_slice(&u64::MAX.to_le_bytes());
    assert_eq!(Instance::unflatten(1, &long_text), Err(Error::DeserializationError));
}

#[test]
fn unflatten_ignores_bytes_after_the_payload() {
    let mut bytes = sample_payload();
    bytes.extend_from_slice(&[9, 9, 9]);
    assert_eq!(Instance::unflatten(1, &bytes), Ok(sample()));
}

#[test]
fn unflatten_takes_a_job_that_no_registry_knows() {
    let (version, bytes) = sample().flatten().unwrap();
    let loaded = Instance::unflatten(version, &bytes).unwrap();
    assert_eq!(loaded.active_job, Some(JobId { raw: 3 }));
}

#[test]
fn a_failure_of_the_encoder_is_a_serialization_error() {
    let failure = Err(Box::new(bincode::ErrorKind::SizeLimit));
    assert_eq!(Instance::framed(failure), Err(Error::SerializationError));
}

#[test]
fn a_payload_is_framed_with_the_version() {
    assert_eq!(Instance::framed(Ok(vec![1, 2, 3])), Ok((1, vec![1, 2, 3])));
    assert_eq!(Instance::framed(Ok(Vec::new())), Ok((1, Vec::new())));
}

#[test]
fn a_failure_of_the_decoder_is_a_deserialization_error() {
    let failure = Err(Box::new(bincode::ErrorKind::SizeLimit));
    assert_eq!(Instance::from_decoded(failure), Err(Error::DeserializationError));
}

#[test]
fn decoded_fields_become_the_instance() {
    let fields = (5u64, Some(String::from("ab")), None, Some(String::from("/p/s.py")), Some(3u64));
    assert_eq!(Instance::from_decoded(Ok(fields)), Ok(sample()));
}

#[test]
fn the_default_instance_is_empty() {
    let instance = Instance::default();
    assert_eq!(
        instance,
        Instance { id: 0, src: None, venv_path: None, last_known_path: None, active_job: None }
    );
}
