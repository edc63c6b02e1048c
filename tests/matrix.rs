use mas_core::matrix::mock::{HomeserverConnection, MockError, ProvisionRequest};

#[test]
fn test_mock_connection() {
    let mut conn = HomeserverConnection::new("example.org".to_owned());

    let mxid = "@test:example.org";
    let device = "test";
    assert_eq!(conn.homeserver(), "example.org");
    assert_eq!(conn.mxid("test"), mxid);

    assert!(conn.query_user("test").is_err());
    assert!(conn.upsert_device("test", device, None).is_err());
    assert!(conn.delete_device("test", device).is_err());

    let request = ProvisionRequest::new("test".to_owned(), "test".to_owned())
        .set_displayname("Test User".into())
        .set_avatar_url("mxc://example.org/1234567890".into())
        .set_emails(vec!["test@example.org".to_owned()]);

    let inserted = conn.provision_user(&request).unwrap();
    assert!(inserted);

    let user = conn.query_user("test").unwrap();
    assert_eq!(user.displayname, Some("Test User".into()));
    assert_eq!(user.avatar_url, Some("mxc://example.org/1234567890".into()));

    // Set the displayname again
    assert!(conn.set_displayname("test", "John").is_ok());

    let user = conn.query_user("test").unwrap();
    assert_eq!(user.displayname, Some("John".into()));

    // Unset the displayname
    assert!(conn.unset_displayname("test").is_ok());

    let user = conn.query_user("test").unwrap();
    assert_eq!(user.displayname, None);

    // Deleting a non-existent device should not fail
    assert!(conn.delete_device("test", device).is_ok());

    // Create the device
    assert!(conn.upsert_device("test", device, None).is_ok());
    // Create the same device again
    assert!(conn.upsert_device("test", device, None).is_ok());

    // Delete the device
    assert!(conn.delete_device("test", device).is_ok());

    // The user we just created should be not available
    assert!(!conn.is_localpart_available("test"));
    // But another user should be
    assert!(conn.is_localpart_available("alice"));

    // Reserve the localpart, it should not be available anymore
    conn.reserve_localpart("alice".to_owned());
    assert!(!conn.is_localpart_available("alice"));
}

#[test]
fn mock_devices_and_lifecycle() {
    let mut conn = HomeserverConnection::new("example.org".to_owned());
    conn.provision_user(&ProvisionRequest::new("bob".to_owned(), "s1".to_owned())).unwrap();
    // Same subject: an update, not a creation.
    assert_eq!(conn.provision_user(&ProvisionRequest::new("bob".to_owned(), "s1".to_owned())), Ok(false));
    // Another subject is refused.
    assert_eq!(conn.provision_user(&ProvisionRequest::new("bob".to_owned(), "s2".to_owned())), Err(MockError::SubjectMismatch));

    conn.upsert_device("bob", "D1", None).unwrap();
    assert_eq!(conn.update_device_display_name("bob", "D1", "Phone"), Ok(()));
    assert_eq!(conn.update_device_display_name("bob", "D2", "Phone"), Err(MockError::DeviceNotFound));
    conn.sync_devices("bob", vec!["D2".to_owned()]).unwrap();
    assert_eq!(conn.update_device_display_name("bob", "D1", "Phone"), Err(MockError::DeviceNotFound));
    assert_eq!(conn.update_device_display_name("bob", "D2", "Phone"), Ok(()));

    conn.set_displayname("bob", "Bob").unwrap();
    conn.delete_user("bob", false).unwrap();
    let user = conn.query_user("bob").unwrap();
    assert!(user.deactivated);
    assert_eq!(user.displayname, Some("Bob".to_owned()));
    assert_eq!(conn.update_device_display_name("bob", "D2", "x"), Err(MockError::DeviceNotFound));
    conn.delete_user("bob", true).unwrap();
    assert_eq!(conn.query_user("bob").unwrap().displayname, None);
    conn.reactivate_user("bob").unwrap();
    assert!(!conn.query_user("bob").unwrap().deactivated);
    assert!(conn.allow_cross_signing_reset("bob").is_ok());
    assert_eq!(conn.allow_cross_signing_reset("nobody"), Err(MockError::UserNotFound));

    assert!(conn.verify_token("mock_homeserver_bearer_token"));
    assert!(!conn.verify_token("other"));
}
