use actix_diesel::dsl::{optional_of, optionalize};
use actix_diesel::transaction::settle_transaction;
use actix_diesel::Builder;
use diesel::result::Error;

#[test]
fn optional_of_found_row() {
    let out = optional_of::<u32>(Ok(1));
    assert!(matches!(out, Ok(Some(1))));
}

#[test]
fn optional_of_zero_rows() {
    let out = optional_of::<u32>(Err(Error::NotFound));
    assert!(matches!(out, Ok(None)));
}

#[test]
fn optional_of_other_error_passes_through() {
    let out = optional_of::<u32>(Err(Error::RollbackTransaction));
    assert!(matches!(out, Err(Error::RollbackTransaction)));
}

#[test]
fn optionalize_follows_the_marker_flag() {
    assert!(matches!(optionalize::<u32, &str>(Ok(4), false), Ok(Some(4))));
    assert!(matches!(optionalize::<u32, &str>(Err("gone"), true), Ok(None)));
    assert!(matches!(
        optionalize::<u32, &str>(Err("broken"), false),
        Err("broken")
    ));
}

#[test]
fn failed_transaction_leaves_state_untouched() {
    let (state, result) = settle_transaction(
        10u32,
        |balance: u32| -> Result<(u32, &'static str), &'static str> {
            let written = balance + 5;
            let _ = written;
            Err("abort")
        },
    );
    assert_eq!(state, 10);
    assert!(matches!(result, Err("abort")));
}

#[test]
fn successful_transaction_commits_the_writes() {
    let (state, result) = settle_transaction(
        10u32,
        |balance: u32| -> Result<(u32, &'static str), &'static str> {
            Ok((balance + 5, "done"))
        },
    );
    assert_eq!(state, 15);
    assert!(matches!(result, Ok("done")));
}

#[test]
fn fresh_builder_leaves_every_option_to_the_pool() {
    let b = Builder::new();
    assert_eq!(b.max_size, None);
    assert_eq!(b.min_idle, None);
    assert_eq!(b.max_lifetime_ms, None);
}

#[test]
fn builder_options_accumulate() {
    let b = Builder::new()
        .pool_max_size(15)
        .pool_min_idle(2)
        .pool_max_lifetime_ms(30_000);
    assert_eq!(b.max_size, Some(15));
    assert_eq!(b.min_idle, Some(2));
    assert_eq!(b.max_lifetime_ms, Some(30_000));
    let b = b.pool_max_size(20);
    assert_eq!(b.max_size, Some(20));
    assert_eq!(b.min_idle, Some(2));
}
