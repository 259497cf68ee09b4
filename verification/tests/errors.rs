use backend_core::BackendError;

#[test]
fn error_messages() {
    assert_eq!(BackendError::NoBackend.to_string(), "No backend found");
    assert_eq!(
        BackendError::Start("device allocation failed".to_string()).to_string(),
        "Could not start backend: device allocation failed"
    );
    assert_eq!(BackendError::Inference("shape mismatch".to_string()).to_string(), "shape mismatch");
    assert_eq!(BackendError::Unhealthy.to_string(), "Backend is unhealthy");
}

#[test]
fn error_messages_with_empty_reason() {
    assert_eq!(BackendError::Start(String::new()).to_string(), "Could not start backend: ");
    assert_eq!(BackendError::Inference(String::new()).to_string(), "");
}

#[test]
fn error_clone_keeps_variant_and_reason() {
    let start = BackendError::Start("no device".to_string());
    assert!(matches!(start.clone(), BackendError::Start(reason) if reason == "no device"));
    let inference = BackendError::Inference("nan".to_string());
    assert!(matches!(inference.clone(), BackendError::Inference(reason) if reason == "nan"));
    assert!(matches!(BackendError::NoBackend.clone(), BackendError::NoBackend));
    assert!(matches!(BackendError::Unhealthy.clone(), BackendError::Unhealthy));
    assert_eq!(start.clone().to_string(), start.to_string());
}

#[test]
fn error_debug_names_the_variant() {
    assert_eq!(format!("{:?}", BackendError::Unhealthy), "Unhealthy");
    assert_eq!(format!("{:?}", BackendError::Start("x".to_string())), "Start(\"x\")");
}
