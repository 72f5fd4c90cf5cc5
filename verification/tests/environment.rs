use paypal_rust::client::paypal::Environment;

#[test]
fn test_environment() {
    assert_eq!(Environment::Sandbox.as_str(), "sandbox");
    assert_eq!(Environment::Live.as_str(), "live");
}
