use rskm::errors::RskmError;

#[test]
fn test_error_messages() {
    let cases = vec![
        (RskmError::NotInitialized, "RSKM_HOME not initialized. Run 'rskm init' first"),
        (RskmError::KeyExists("k".into()), "Key 'k' already exists"),
        (RskmError::KeyNotFound("k".into()), "Key 'k' not found"),
        (RskmError::KeygenFailed, "ssh-keygen failed"),
        (
            RskmError::UnknownKeyType("dsa".into()),
            "unknown key type: 'dsa', must be one of: ed25519, ecdsa, xmss, rsa",
        ),
        (RskmError::HostExists("h".into()), "Host 'h' already exists"),
        (RskmError::HostNotFound("h".into()), "Host 'h' not found"),
        (RskmError::ConfigNotFound("/c".into()), "Config not found: /c"),
        (RskmError::ConfigParseError("bad".into()), "Config parse error: bad"),
        (RskmError::ConfigWriteError("bad".into()), "Failed to write config: bad"),
        (RskmError::AgentNotRunning, "ssh-agent is not running"),
        (RskmError::AgentOperationFailed("x".into()), "ssh-agent error: x"),
        (RskmError::HomeDirectoryNotFound, "Could not determine home directory"),
        (RskmError::InvalidInput("x".into()), "Invalid input: x"),
        (RskmError::InvalidPath("x".into()), "Invalid input: x"),
    ];
    for (err, text) in cases {
        assert_eq!(err.to_string(), text);
        assert!(err.source().is_none());
    }
}

#[test]
fn test_io_error() {
    let err: RskmError = std::io::Error::new(std::io::ErrorKind::Other, "disk full").into();
    assert_eq!(err.to_string(), "IO error: disk full");
    assert_eq!(err.source().map(|e| e.kind()), Some(std::io::ErrorKind::Other));
}
