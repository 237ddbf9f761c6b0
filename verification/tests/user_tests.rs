use todo_users::error::StoreError;
use todo_users::trusted::{hash_password, verify_password};
use todo_users::user::{
    check_new_password, CreateUser, LogInUser, UpdateUserInfo, UpdateUserPassword, UserStore,
};

fn fields(email: &str, password: &str, confirm: &str) -> CreateUser {
    CreateUser {
        first_name: "John".to_string(),
        last_name: "Doe".to_string(),
        email: email.to_string(),
        password: password.to_string(),
        confirm_password: confirm.to_string(),
    }
}

#[test]
fn register_with_valid_fields_succeeds() {
    let mut store = UserStore::new();
    let resp = store
        .register(fields("john@example.com", "abcdef", "abcdef"))
        .expect("registration should succeed");
    assert_eq!(resp.first_name, "John");
    assert_eq!(resp.last_name, "Doe");
    assert_eq!(resp.email, "john@example.com");
    assert_eq!(store.users.len(), 1);
    // The stored password is a digest, not the plaintext.
    assert_ne!(store.users[0].password, "abcdef");
}

#[test]
fn register_short_password_is_rejected_by_policy() {
    let mut store = UserStore::new();
    let r = store.register(fields("john@example.com", "abc", "abc"));
    match r {
        Err(StoreError::Validation(m)) => {
            assert_eq!(m, "Password should have characters between 6 to 12")
        },
        _ => panic!("expected a policy error"),
    }
    assert_eq!(store.users.len(), 0);
}

#[test]
fn register_mismatched_confirmation_is_rejected() {
    let mut store = UserStore::new();
    let r = store.register(fields("john@example.com", "abcdef", "abcdez"));
    match r {
        Err(StoreError::Validation(m)) => assert_eq!(m, "Password don't match"),
        _ => panic!("expected a mismatch error"),
    }
}

#[test]
fn register_blank_first_name_is_rejected() {
    let mut store = UserStore::new();
    let mut f = fields("john@example.com", "abcdef", "abcdef");
    f.first_name = "   ".to_string();
    match store.register(f) {
        Err(StoreError::Validation(m)) => assert_eq!(m, "Firstname cannot be empty"),
        _ => panic!("expected a validation error"),
    }
}

#[test]
fn register_blank_last_name_is_rejected() {
    let mut store = UserStore::new();
    let mut f = fields("john@example.com", "abcdef", "abcdef");
    f.last_name = "".to_string();
    match store.register(f) {
        Err(StoreError::Validation(m)) => assert_eq!(m, "Lastname cannot be empty"),
        _ => panic!("expected a validation error"),
    }
}

#[test]
fn register_invalid_email_is_rejected() {
    let mut store = UserStore::new();
    match store.register(fields("not-an-email", "abcdef", "abcdef")) {
        Err(StoreError::Validation(m)) => assert_eq!(m, "Invalid email format"),
        _ => panic!("expected a validation error"),
    }
}

#[test]
fn register_duplicate_email_yields_conflict_and_keeps_first() {
    let mut store = UserStore::new();
    store
        .register(fields("john@example.com", "abcdef", "abcdef"))
        .expect("first registration should succeed");
    let first_name_before = store.users[0].first_name.clone();
    let digest_before = store.users[0].password.clone();
    let mut second = fields("john@example.com", "ghijkl", "ghijkl");
    second.first_name = "Jane".to_string();
    match store.register(second) {
        Err(StoreError::Conflict(m)) => assert_eq!(m, "Email already used"),
        _ => panic!("expected a conflict"),
    }
    assert_eq!(store.users.len(), 1);
    assert_eq!(store.users[0].first_name, first_name_before);
    assert_eq!(store.users[0].password, digest_before);
}

#[test]
fn login_with_correct_credentials_succeeds() {
    let mut store = UserStore::new();
    store
        .register(fields("john@example.com", "abcdef", "abcdef"))
        .expect("registration should succeed");
    let resp = store
        .login(LogInUser {
            email: "john@example.com".to_string(),
            password: "abcdef".to_string(),
        })
        .expect("login should succeed");
    assert_eq!(resp.email, "john@example.com");
    assert_eq!(resp.first_name, "John");
}

#[test]
fn login_rejections_share_one_message() {
    let mut store = UserStore::new();
    store
        .register(fields("john@example.com", "abcdef", "abcdef"))
        .expect("registration should succeed");
    let wrong_password = store.login(LogInUser {
        email: "john@example.com".to_string(),
        password: "wrongpw".to_string(),
    });
    let unknown_email = store.login(LogInUser {
        email: "jane@example.com".to_string(),
        password: "abcdef".to_string(),
    });
    let m1 = match wrong_password {
        Err(StoreError::Unauthorized(m)) => m,
        _ => panic!("expected unauthorized"),
    };
    let m2 = match unknown_email {
        Err(StoreError::Unauthorized(m)) => m,
        _ => panic!("expected unauthorized"),
    };
    assert_eq!(m1.as_bytes(), m2.as_bytes());
    assert_eq!(m1, "Invalid email or password");
}

#[test]
fn update_info_patch_applies_only_present_fields() {
    let mut store = UserStore::new();
    let resp = store
        .register(fields("john@example.com", "abcdef", "abcdef"))
        .expect("registration should succeed");
    let updated = store
        .update_info(&resp.id, UpdateUserInfo {
            first_name: Some("Jane".to_string()),
            last_name: None,
            email: None,
        })
        .expect("update should succeed");
    assert_eq!(updated.first_name, "Jane");
    assert_eq!(updated.last_name, "Doe");
    assert_eq!(updated.email, "john@example.com");
}

#[test]
fn update_info_missing_id_reports_not_found() {
    let mut store = UserStore::new();
    let r = store.update_info(&"missing".to_string(), UpdateUserInfo {
        first_name: None,
        last_name: None,
        email: None,
    });
    match r {
        Err(StoreError::NotFound(m)) => assert_eq!(m, "User not found"),
        _ => panic!("expected not-found"),
    }
}

#[test]
fn update_info_invalid_email_is_rejected() {
    let mut store = UserStore::new();
    let resp = store
        .register(fields("john@example.com", "abcdef", "abcdef"))
        .expect("registration should succeed");
    let r = store.update_info(&resp.id, UpdateUserInfo {
        first_name: None,
        last_name: None,
        email: Some("bad".to_string()),
    });
    match r {
        Err(StoreError::Validation(m)) => assert_eq!(m, "Invalid email format."),
        _ => panic!("expected a validation error"),
    }
}

#[test]
fn update_info_email_of_another_user_is_a_conflict() {
    let mut store = UserStore::new();
    store
        .register(fields("john@example.com", "abcdef", "abcdef"))
        .expect("registration should succeed");
    let jane = store
        .register(fields("jane@example.com", "abcdef", "abcdef"))
        .expect("registration should succeed");
    let r = store.update_info(&jane.id, UpdateUserInfo {
        first_name: None,
        last_name: None,
        email: Some("john@example.com".to_string()),
    });
    match r {
        Err(StoreError::Conflict(m)) => assert_eq!(m, "Email already in use by another user."),
        _ => panic!("expected a conflict"),
    }
    assert_eq!(store.users[1].email, "jane@example.com");
}

#[test]
fn update_info_keeping_own_email_succeeds() {
    let mut store = UserStore::new();
    let resp = store
        .register(fields("john@example.com", "abcdef", "abcdef"))
        .expect("registration should succeed");
    let updated = store
        .update_info(&resp.id, UpdateUserInfo {
            first_name: None,
            last_name: Some("Smith".to_string()),
            email: Some("john@example.com".to_string()),
        })
        .expect("update should succeed");
    assert_eq!(updated.last_name, "Smith");
    assert_eq!(updated.email, "john@example.com");
}

#[test]
fn update_info_blank_name_leaves_account_untouched() {
    let mut store = UserStore::new();
    let resp = store
        .register(fields("john@example.com", "abcdef", "abcdef"))
        .expect("registration should succeed");
    let r = store.update_info(&resp.id, UpdateUserInfo {
        first_name: Some("Jane".to_string()),
        last_name: Some("  ".to_string()),
        email: None,
    });
    match r {
        Err(StoreError::Validation(m)) => assert_eq!(m, "Last name cannot be empty."),
        _ => panic!("expected a validation error"),
    }
    // Validation runs before any field is applied: the first name too
    // is still the old one.
    assert_eq!(store.users[0].first_name, "John");
    assert_eq!(store.users[0].last_name, "Doe");
}

#[test]
fn change_password_equal_to_current_is_rejected() {
    let mut store = UserStore::new();
    let resp = store
        .register(fields("john@example.com", "abcdef", "abcdef"))
        .expect("registration should succeed");
    let r = store.change_password(&resp.id, UpdateUserPassword {
        current_password: "abcdef".to_string(),
        new_password: "abcdef".to_string(),
        confirm_password: "abcdef".to_string(),
    });
    match r {
        Err(StoreError::Unauthorized(m)) => {
            assert_eq!(m, "Old password and new password cannot be same")
        },
        _ => panic!("expected a rejection"),
    }
}

#[test]
fn change_password_equal_to_current_is_rejected_even_when_invalid() {
    let mut store = UserStore::new();
    let resp = store
        .register(fields("john@example.com", "abcdef", "abcdef"))
        .expect("registration should succeed");
    // Both too short, but the same-password rule fires first.
    let r = store.change_password(&resp.id, UpdateUserPassword {
        current_password: "abc".to_string(),
        new_password: "abc".to_string(),
        confirm_password: "abc".to_string(),
    });
    match r {
        Err(StoreError::Unauthorized(m)) => {
            assert_eq!(m, "Old password and new password cannot be same")
        },
        _ => panic!("expected a rejection"),
    }
}

#[test]
fn change_password_unknown_id_is_rejected_like_a_bad_credential() {
    let mut store = UserStore::new();
    let r = store.change_password(&"missing".to_string(), UpdateUserPassword {
        current_password: "abcdef".to_string(),
        new_password: "ghijkl".to_string(),
        confirm_password: "ghijkl".to_string(),
    });
    match r {
        Err(StoreError::Unauthorized(m)) => assert_eq!(m, "Invalid user ID or old password."),
        _ => panic!("expected a rejection"),
    }
}

#[test]
fn change_password_wrong_current_is_unauthorized() {
    let mut store = UserStore::new();
    let resp = store
        .register(fields("john@example.com", "abcdef", "abcdef"))
        .expect("registration should succeed");
    let r = store.change_password(&resp.id, UpdateUserPassword {
        current_password: "wrongpw".to_string(),
        new_password: "ghijkl".to_string(),
        confirm_password: "ghijkl".to_string(),
    });
    match r {
        Err(StoreError::Unauthorized(m)) => assert_eq!(m, "Invalid user ID or old password."),
        _ => panic!("expected a rejection"),
    }
}

#[test]
fn change_password_rejections_do_not_reveal_the_factor() {
    let mut store = UserStore::new();
    let resp = store
        .register(fields("john@example.com", "abcdef", "abcdef"))
        .expect("registration should succeed");
    let wrong_current = store.change_password(&resp.id, UpdateUserPassword {
        current_password: "wrongpw".to_string(),
        new_password: "ghijkl".to_string(),
        confirm_password: "ghijkl".to_string(),
    });
    let unknown_id = store.change_password(&"missing".to_string(), UpdateUserPassword {
        current_password: "abcdef".to_string(),
        new_password: "ghijkl".to_string(),
        confirm_password: "ghijkl".to_string(),
    });
    let m1 = match wrong_current {
        Err(StoreError::Unauthorized(m)) => m,
        _ => panic!("expected a rejection"),
    };
    let m2 = match unknown_id {
        Err(StoreError::Unauthorized(m)) => m,
        _ => panic!("expected a rejection"),
    };
    assert_eq!(m1.as_bytes(), m2.as_bytes());
}

#[test]
fn check_new_password_reports_each_rule() {
    let same = check_new_password(
        &"abcdef".to_string(),
        &"abcdef".to_string(),
        &"abcdef".to_string(),
    );
    match same {
        Err(StoreError::Unauthorized(m)) => {
            assert_eq!(m, "Old password and new password cannot be same")
        },
        _ => panic!("expected a rejection"),
    }
    let short = check_new_password(&"abcdef".to_string(), &"abc".to_string(), &"abc".to_string());
    match short {
        Err(StoreError::Validation(m)) => {
            assert_eq!(m, "Password should have characters between 6 to 12")
        },
        _ => panic!("expected a policy error"),
    }
    let mismatch =
        check_new_password(&"abcdef".to_string(), &"ghijkl".to_string(), &"zzzzzz".to_string());
    match mismatch {
        Err(StoreError::Validation(m)) => assert_eq!(m, "Password don't match"),
        _ => panic!("expected a mismatch error"),
    }
    assert!(check_new_password(&"abcdef".to_string(), &"ghijkl".to_string(), &"ghijkl".to_string())
        .is_ok());
}

#[test]
fn find_by_email_clones_the_matching_account() {
    let mut store = UserStore::new();
    store
        .register(fields("john@example.com", "abcdef", "abcdef"))
        .expect("registration should succeed");
    let found = store.find_by_email(&"john@example.com".to_string());
    assert_eq!(found.expect("account should be found").first_name, "John");
    assert!(store.find_by_email(&"jane@example.com".to_string()).is_none());
}

#[test]
fn split_password_change_switches_the_accepted_credential() {
    let mut store = UserStore::new();
    let resp = store
        .register(fields("john@example.com", "abcdef", "abcdef"))
        .expect("registration should succeed");
    // The lock-splitting sequence a dispatcher runs: look the account
    // up, check the payload, verify, hash, then swap the digest in.
    let found = store.find_by_id(&resp.id).expect("account should be found");
    check_new_password(&"abcdef".to_string(), &"ghijkl".to_string(), &"ghijkl".to_string())
        .expect("the payload should pass the checks");
    assert!(verify_password("abcdef", &found.password).expect("verification should complete"));
    let digest = hash_password("ghijkl").expect("hashing should succeed");
    store.replace_digest(&resp.id, digest).expect("the swap should succeed");
    assert!(store
        .login(LogInUser {
            email: "john@example.com".to_string(),
            password: "ghijkl".to_string(),
        })
        .is_ok());
}

#[test]
fn replace_digest_unknown_id_is_rejected() {
    let mut store = UserStore::new();
    let digest = hash_password("ghijkl").expect("hashing should succeed");
    let r = store.replace_digest(&"missing".to_string(), digest);
    match r {
        Err(StoreError::Unauthorized(m)) => assert_eq!(m, "Invalid user ID or old password."),
        _ => panic!("expected a rejection"),
    }
}

#[test]
fn change_password_policy_violation_is_rejected() {
    let mut store = UserStore::new();
    let resp = store
        .register(fields("john@example.com", "abcdef", "abcdef"))
        .expect("registration should succeed");
    let r = store.change_password(&resp.id, UpdateUserPassword {
        current_password: "abcdef".to_string(),
        new_password: "ghijkl".to_string(),
        confirm_password: "zzzzzz".to_string(),
    });
    match r {
        Err(StoreError::Validation(m)) => assert_eq!(m, "Password don't match"),
        _ => panic!("expected a validation error"),
    }
}

#[test]
fn change_password_success_switches_the_accepted_credential() {
    let mut store = UserStore::new();
    let resp = store
        .register(fields("john@example.com", "abcdef", "abcdef"))
        .expect("registration should succeed");
    store
        .change_password(&resp.id, UpdateUserPassword {
            current_password: "abcdef".to_string(),
            new_password: "ghijkl".to_string(),
            confirm_password: "ghijkl".to_string(),
        })
        .expect("password change should succeed");
    assert!(store
        .login(LogInUser {
            email: "john@example.com".to_string(),
            password: "ghijkl".to_string(),
        })
        .is_ok());
    assert!(matches!(
        store.login(LogInUser {
            email: "john@example.com".to_string(),
            password: "abcdef".to_string(),
        }),
        Err(StoreError::Unauthorized(_))
    ));
}

#[test]
fn registered_users_get_distinct_ids() {
    let mut store = UserStore::new();
    let a = store
        .register(fields("a@example.com", "abcdef", "abcdef"))
        .expect("registration should succeed");
    let b = store
        .register(fields("b@example.com", "abcdef", "abcdef"))
        .expect("registration should succeed");
    assert_ne!(a.id, b.id);
    assert_eq!(store.users.len(), 2);
}
