use libddwaf::{Config, Limits, Obfuscator, OBFUSCATOR_DEFAULT_KEY_REGEX, OBFUSCATOR_DEFAULT_VAL_REGEX};

#[test]
pub fn default_obfuscator() {
    let obfuscator = Obfuscator::default();
    assert!(obfuscator.key_regex().is_some());
    assert!(obfuscator.value_regex().is_some());
}

#[test]
pub fn key_only_obfuscator() {
    let obfuscator = Obfuscator::new(Some(".*"), None);
    assert_eq!(obfuscator.key_regex(), Some(".*"));
    assert!(obfuscator.value_regex().is_none());
}

#[test]
pub fn value_only_obfuscator() {
    let obfuscator = Obfuscator::new(None, Some(".*"));
    assert!(obfuscator.key_regex().is_none());
    assert_eq!(obfuscator.value_regex(), Some(".*"));
}

#[test]
pub fn clone_validity() {
    let obfuscator = {
        // Clone from this and let it get dropped.
        let def = Obfuscator::default();
        def.clone()
    };
    assert_eq!(obfuscator.key_regex(), Some(OBFUSCATOR_DEFAULT_KEY_REGEX));
    assert_eq!(obfuscator.value_regex(), Some(OBFUSCATOR_DEFAULT_VAL_REGEX));
}

#[test]
fn config_keeps_limits_and_obfuscator() {
    let limits = Limits { max_container_size: 256, max_container_depth: 20, max_string_length: 4096 };
    let config = Config::new(limits, Obfuscator::new(Some("key"), None));
    assert_eq!(config.limits().max_container_size, 256);
    assert_eq!(config.limits().max_container_depth, 20);
    assert_eq!(config.limits().max_string_length, 4096);
    assert_eq!(config.obfuscator().key_regex(), Some("key"));
    assert!(config.obfuscator().value_regex().is_none());

    let config = Config::default();
    assert_eq!(config.limits().max_container_size, 0);
    assert_eq!(config.obfuscator().key_regex(), Some(OBFUSCATOR_DEFAULT_KEY_REGEX));
}
