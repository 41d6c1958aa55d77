use fintrack::authentication::{
    BeforeEpoch, LoginClaims, Rfc7519Claims, Timestamp, NANOS_PER_SECOND, SESSION_SECONDS,
};
use fintrack::handlers::{
    create_user, decide_login, login, new_user, placeholder, rows_outcome, LoginOutcome,
    RowsOutcome, User,
};
use fintrack::http::{ArrayQuery, ArrayQueryPayloadError};
use fintrack::model::{containing_pattern, conversion_rate_for, SortOrder};

const ROOT_HASH: &str =
    "$pbkdf2-sha256$i=1000,l=32$AQIDBAUGBwgJCgsM$TpOMvfndC7G7FvD8B2mX8TPLEj9KVkpOyaaTa1ErWeQ";
const HORSE_HASH: &str =
    "$pbkdf2-sha256$i=2000,l=32$AQIDBAUGBwgJCgsM$Hk5Pwr+Vo4wL102NO5IM2jjgnnFLHCmMMc3HoJ5n5QA";

fn user(id: i32, hash: &str) -> User {
    User {
        id,
        username: "root".to_string(),
        password: hash.to_string(),
        fixed_currency_id: None,
        enabled: true,
    }
}

#[test]
fn array_query_hands_back_what_it_holds() {
    assert_eq!(ArrayQuery(vec![3, 1, 2]).into_inner(), vec![3, 1, 2]);
    assert_eq!(ArrayQuery("ids[0]=1".to_string()).into_inner(), "ids[0]=1");
    let query = ArrayQuery((7u8, false));
    assert_eq!(query.0, (7, false));
    assert_eq!(*query, (7, false));
    assert_eq!(query.clone().into_inner(), (7, false));
    assert!(ArrayQuery(1) < ArrayQuery(2));
}

#[test]
fn a_query_that_was_read_is_wrapped() {
    let read = serde_qs::from_str::<std::collections::HashMap<String, Vec<i32>>>("ids[0]=3&ids[1]=1");
    let query = ArrayQuery::from_query(read).unwrap();
    assert_eq!(query.into_inner().get("ids"), Some(&vec![3, 1]));
    assert_eq!(ArrayQuery::from_query(Ok(7)).unwrap(), ArrayQuery(7));
}

#[test]
fn a_query_that_was_not_read_is_an_error() {
    let told = serde_qs::from_str::<std::collections::HashMap<String, i32>>("a=x")
        .unwrap_err()
        .to_string();
    let read = serde_qs::from_str::<std::collections::HashMap<String, i32>>("a=x");
    match ArrayQuery::from_query(read) {
        Err(ArrayQueryPayloadError::Deserialize(error)) => assert_eq!(error.to_string(), told),
        Ok(_) => panic!("nothing was read"),
    }
}

#[test]
fn token_claims_become_a_login_and_back() {
    let login = LoginClaims::from(Rfc7519Claims { sub: 42, exp: 1_700_000_000, iat: 1_668_442_400 });
    assert_eq!(login.user_id, 42);
    assert_eq!(login.expires_at.nanos(), 1_700_000_000 * NANOS_PER_SECOND);
    assert_eq!(login.created_at.nanos(), 1_668_442_400 * NANOS_PER_SECOND);
    let claims = Rfc7519Claims::try_from(login).unwrap();
    assert_eq!((claims.sub, claims.exp, claims.iat), (42, 1_700_000_000, 1_668_442_400));

    let widest = LoginClaims::from(Rfc7519Claims { sub: -1, exp: u64::MAX, iat: 0 });
    assert_eq!(widest.expires_at.nanos(), (u64::MAX as i128) * NANOS_PER_SECOND);
    let claims = Rfc7519Claims::try_from(widest).unwrap();
    assert_eq!((claims.sub, claims.exp, claims.iat), (-1, u64::MAX, 0));
}

#[test]
fn token_claims_count_whole_seconds() {
    let login = LoginClaims {
        user_id: 1,
        expires_at: Timestamp::from_nanos(2 * NANOS_PER_SECOND - 1).unwrap(),
        created_at: Timestamp::from_nanos(999_999_999).unwrap(),
    };
    let claims = Rfc7519Claims::try_from(login).unwrap();
    assert_eq!((claims.sub, claims.exp, claims.iat), (1, 1, 0));
}

#[test]
fn a_login_before_the_epoch_has_no_token_claims() {
    let early = Timestamp::from_nanos(-1).unwrap();
    let late = Timestamp::from_epoch_seconds(10);
    let claims = Rfc7519Claims::try_from(LoginClaims { user_id: 1, expires_at: late, created_at: early });
    assert_eq!(claims.unwrap_err(), BeforeEpoch { time: early });
    let earlier = Timestamp::from_nanos(-5 * NANOS_PER_SECOND).unwrap();
    let claims =
        Rfc7519Claims::try_from(LoginClaims { user_id: 1, expires_at: earlier, created_at: early });
    assert_eq!(claims.unwrap_err(), BeforeEpoch { time: earlier });
    assert_eq!(early.epoch_seconds(), Err(BeforeEpoch { time: early }));
    assert_eq!(late.epoch_seconds(), Ok(10));
}

#[test]
fn a_login_lasts_a_year() {
    let created = Timestamp::from_nanos(1_700_000_000_123_456_789).unwrap();
    let login = LoginClaims::issue(9, created);
    assert_eq!(login.user_id, 9);
    assert_eq!(login.created_at, created);
    assert_eq!(SESSION_SECONDS, 31_557_600);
    assert_eq!(login.expires_at.nanos(), 1_731_557_600_123_456_789);
    let claims = Rfc7519Claims::try_from(login).unwrap();
    assert_eq!((claims.sub, claims.exp, claims.iat), (9, 1_731_557_600, 1_700_000_000));
}

#[test]
fn a_login_is_over_once_its_expiry_is_past() {
    let login = LoginClaims::from(Rfc7519Claims { sub: 1, exp: 100, iat: 0 });
    assert!(!login.is_expired_at(&Timestamp::from_epoch_seconds(99)));
    assert!(!login.is_expired_at(&Timestamp::from_epoch_seconds(100)));
    assert!(login.is_expired_at(&Timestamp::from_nanos(100 * NANOS_PER_SECOND + 1).unwrap()));
    assert!(login.is_expired_at(&Timestamp::from_epoch_seconds(101)));
}

#[test]
fn timestamps_cover_two_to_the_sixty_four_seconds_either_way() {
    let span: i128 = 18_446_744_073_709_551_616_000_000_000;
    assert!(Timestamp::from_nanos(span - 1).is_some());
    assert!(Timestamp::from_nanos(span).is_none());
    assert!(Timestamp::from_nanos(-span + 1).is_some());
    assert!(Timestamp::from_nanos(-span).is_none());
    assert!(Timestamp::from_nanos(i128::MAX).is_none());
    assert_eq!(Timestamp::from_nanos(0).unwrap(), Timestamp::from_epoch_seconds(0));
    let epoch = Timestamp::from_epoch_seconds(0);
    assert_eq!(epoch.checked_add_seconds(5).unwrap().nanos(), 5 * NANOS_PER_SECOND);
    assert!(Timestamp::from_epoch_seconds(1).checked_add_seconds(u64::MAX).is_none());
    assert!(epoch.checked_add_seconds(u64::MAX).is_some());
    assert!(Timestamp::from_nanos(-1).unwrap().is_before(&epoch));
    assert!(!epoch.is_before(&epoch));
}

#[test]
fn the_right_password_logs_the_user_in() {
    assert_eq!(login(&vec![user(5, ROOT_HASH)], "root"), LoginOutcome::Granted { user_id: 5 });
    assert_eq!(
        login(&vec![user(6, HORSE_HASH)], "correct horse"),
        LoginOutcome::Granted { user_id: 6 }
    );
}

#[test]
fn a_wrong_password_is_turned_away() {
    assert_eq!(login(&vec![user(5, ROOT_HASH)], "toor"), LoginOutcome::Unauthorized);
    assert_eq!(login(&vec![user(5, ROOT_HASH)], ""), LoginOutcome::Unauthorized);
    assert_eq!(login(&vec![user(5, ROOT_HASH)], ROOT_HASH), LoginOutcome::Unauthorized);
    assert_eq!(login(&vec![user(5, HORSE_HASH)], "root"), LoginOutcome::Unauthorized);
}

#[test]
fn the_last_user_found_is_the_one_checked() {
    assert_eq!(
        login(&vec![user(5, HORSE_HASH), user(6, ROOT_HASH)], "root"),
        LoginOutcome::Granted { user_id: 6 }
    );
    assert_eq!(
        login(&vec![user(5, ROOT_HASH), user(6, HORSE_HASH)], "root"),
        LoginOutcome::Unauthorized
    );
    assert_eq!(
        login(&vec![user(4, ROOT_HASH), user(5, ROOT_HASH), user(6, ROOT_HASH)], "root"),
        LoginOutcome::Unauthorized
    );
}

#[test]
fn an_unreadable_hash_ends_the_login_at_once() {
    assert_eq!(login(&vec![user(5, "")], "root"), LoginOutcome::HashUnreadable);
    assert_eq!(login(&vec![user(5, "root")], "root"), LoginOutcome::HashUnreadable);
    assert_eq!(
        login(&vec![user(5, ROOT_HASH), user(6, "not a hash")], "root"),
        LoginOutcome::HashUnreadable
    );
    assert_eq!(
        login(&vec![user(5, "$pbkdf2-sha256$i=1000,l=32$AQIDBAUGBwgJCgsM$TpOM$extra")], "root"),
        LoginOutcome::HashUnreadable
    );
}

#[test]
fn a_hash_of_another_kind_is_a_wrong_password() {
    assert_eq!(
        login(
            &vec![user(5, "$argon2id$v=19$m=16,t=2,p=1$AQIDBAUGBwgJCgsM$TpOMvfndC7G7FvD8B2mX8Q")],
            "root"
        ),
        LoginOutcome::Unauthorized
    );
    assert_eq!(login(&vec![user(5, "$pbkdf2-sha256")], "root"), LoginOutcome::Unauthorized);
}

#[test]
fn nobody_found_is_turned_away() {
    assert_eq!(login(&vec![], "root"), LoginOutcome::Unauthorized);
    assert_eq!(
        placeholder(),
        "$pbkdf2-sha256$i=600000,l=32$XpabVnRzlUG8YOvL$/rdEfUzDwQOBJBCfmc6P3DrbJDo13IrrY+6/O087CSI"
    );
}

#[test]
fn a_login_is_decided_by_count_and_verdict() {
    assert_eq!(decide_login(1, 3, None), LoginOutcome::HashUnreadable);
    assert_eq!(decide_login(0, 3, None), LoginOutcome::HashUnreadable);
    assert_eq!(decide_login(0, 0, Some(true)), LoginOutcome::Unauthorized);
    assert_eq!(decide_login(0, 0, Some(false)), LoginOutcome::Unauthorized);
    assert_eq!(decide_login(1, 3, Some(true)), LoginOutcome::Granted { user_id: 3 });
    assert_eq!(decide_login(1, 3, Some(false)), LoginOutcome::Unauthorized);
    assert_eq!(decide_login(2, -4, Some(true)), LoginOutcome::Granted { user_id: -4 });
    assert_eq!(decide_login(3, 3, Some(true)), LoginOutcome::Unauthorized);
    assert_eq!(decide_login(usize::MAX, 3, Some(true)), LoginOutcome::Unauthorized);
}

#[test]
fn a_new_user_holds_the_hash_of_the_password() {
    let salt = [1u8, 2, 3, 4, 5, 6, 7, 8, 9, 10, 11, 12];
    let record = new_user("root", "root", &salt).unwrap();
    assert_eq!(record.username, "root");
    assert_eq!(
        record.password,
        "$pbkdf2-sha256$i=600000,l=32$AQIDBAUGBwgJCgsM$dEje5NazIi7GO/FECljOoISC9eaCzy1wJXlF2bYB/Rs"
    );
    let other = new_user("root", "root", &[0xfb, 0xff, 0xbe, 4, 5, 6, 7, 8, 9, 10, 11, 12]).unwrap();
    assert!(other.password.starts_with("$pbkdf2-sha256$i=600000,l=32$+/++BAUGBwgJCgsM$"));
}

#[test]
fn a_created_user_can_log_in() {
    let record = create_user("ada", "lovelace").unwrap();
    assert_eq!(record.username, "ada");
    assert!(record.password.starts_with("$pbkdf2-sha256$i=600000,l=32$"));
    let stored = User {
        id: 11,
        username: record.username,
        password: record.password,
        fixed_currency_id: Some(1),
        enabled: true,
    };
    assert_eq!(login(&vec![stored], "lovelace"), LoginOutcome::Granted { user_id: 11 });
}

#[test]
fn one_row_is_meant() {
    assert_eq!(rows_outcome(1), RowsOutcome::Done);
    assert_eq!(rows_outcome(0), RowsOutcome::Missing);
    assert_eq!(rows_outcome(2), RowsOutcome::TooMany);
    assert_eq!(rows_outcome(usize::MAX), RowsOutcome::TooMany);
}

#[test]
fn a_rate_is_kept_only_beside_a_secondary_source() {
    assert_eq!(conversion_rate_for(&Some(3), Some(1.5f64)), Some(1.5));
    assert_eq!(conversion_rate_for(&None, Some(1.5f64)), None);
    assert_eq!(conversion_rate_for(&Some(3), None::<f64>), None);
    assert_eq!(conversion_rate_for(&None, None::<f64>), None);
}

#[test]
fn sort_keys_name_four_orders() {
    assert_eq!(SortOrder::from_key("amount_asc"), Some(SortOrder::AmountAscending));
    assert_eq!(SortOrder::from_key("amount_desc"), Some(SortOrder::AmountDescending));
    assert_eq!(SortOrder::from_key("date_asc"), Some(SortOrder::DateAscending));
    assert_eq!(SortOrder::from_key("date_desc"), Some(SortOrder::DateDescending));
    assert_eq!(SortOrder::from_key("created_at_asc"), None);
    assert_eq!(SortOrder::from_key("AMOUNT_ASC"), None);
    assert_eq!(SortOrder::from_key(""), None);
}

#[test]
fn a_pattern_wraps_the_fragment() {
    assert_eq!(containing_pattern("rent"), "%rent%");
    assert_eq!(containing_pattern(""), "%%");
    assert_eq!(containing_pattern("50%"), "%50%%");
}
