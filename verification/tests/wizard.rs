use passchain::errors::{AskError, PromptFailure};
use passchain::factor::{Factor, FidoItem};
use passchain::wizard::{
    after_confirm, after_details, after_kind, confirm_title, kind_prompt, next_number,
    AfterConfirm, AfterDetails, AfterKind, FactorDiscriminants, LAST_NUMBER,
};

fn io() -> AskError {
    AskError::InquireError(PromptFailure::IO("broken pipe".to_string()))
}

#[test]
fn prompt_failures_are_sorted() {
    assert_eq!(AskError::from(PromptFailure::OperationCanceled), AskError::Canceled);
    assert_eq!(AskError::from(PromptFailure::OperationInterrupted), AskError::Interrupted);
    assert_eq!(AskError::from(PromptFailure::NotTTY), AskError::InquireError(PromptFailure::NotTTY));
    assert_eq!(
        AskError::from(PromptFailure::InvalidConfiguration("empty".to_string())),
        AskError::InquireError(PromptFailure::InvalidConfiguration("empty".to_string()))
    );
    assert_eq!(AskError::from(PromptFailure::IO("broken pipe".to_string())), io());
    assert_eq!(
        AskError::from(PromptFailure::Custom("bad".to_string())),
        AskError::InquireError(PromptFailure::Custom("bad".to_string()))
    );
}

#[test]
fn the_kind_leads_to_the_details() {
    assert_eq!(
        after_kind(Ok(FactorDiscriminants::Password)),
        AfterKind::Details(FactorDiscriminants::Password)
    );
    assert_eq!(
        after_kind(Ok(FactorDiscriminants::Fido)),
        AfterKind::Details(FactorDiscriminants::Fido)
    );
    assert_eq!(after_kind(Err(AskError::Canceled)), AfterKind::Finish);
    assert_eq!(after_kind(Err(AskError::Interrupted)), AfterKind::Fail(AskError::Interrupted));
    assert_eq!(after_kind(Err(io())), AfterKind::Fail(io()));
    assert_eq!(
        after_kind(Err(AskError::InquireError(PromptFailure::InvalidConfiguration(
            "none".to_string()
        )))),
        AfterKind::Fail(AskError::InquireError(PromptFailure::InvalidConfiguration(
            "none".to_string()
        )))
    );
}

#[test]
fn a_password_is_added_at_once() {
    match after_details(Ok(Factor::Password("pw".to_string()))) {
        AfterDetails::Add(Factor::Password(p)) => assert_eq!(p, "pw"),
        _ => panic!("the password was not added"),
    }
}

#[test]
fn a_device_is_put_up_for_confirmation() {
    let item = FidoItem { device_name: "Key | 1050:0407".to_string() };
    match after_details(Ok(Factor::Fido(item))) {
        AfterDetails::Confirm(item) => assert_eq!(item.device_name, "Key | 1050:0407"),
        _ => panic!("the device was not put up for confirmation"),
    }
}

#[test]
fn failed_details_lead_back_or_out() {
    assert!(matches!(
        after_details(Err(AskError::Canceled)),
        AfterDetails::Retry { notice: false }
    ));
    assert!(matches!(
        after_details(Err(AskError::InquireError(PromptFailure::InvalidConfiguration(
            "no devices".to_string()
        )))),
        AfterDetails::Retry { notice: true }
    ));
    assert!(matches!(
        after_details(Err(AskError::Interrupted)),
        AfterDetails::Fail(AskError::Interrupted)
    ));
    match after_details(Err(io())) {
        AfterDetails::Fail(e) => assert_eq!(e, io()),
        _ => panic!("a broken terminal did not end the collection"),
    }
    assert!(matches!(
        after_details(Err(AskError::InquireError(PromptFailure::NotTTY))),
        AfterDetails::Fail(AskError::InquireError(PromptFailure::NotTTY))
    ));
}

#[test]
fn the_confirmation_adds_or_leads_back() {
    assert_eq!(after_confirm(Ok(true)), AfterConfirm::Add);
    assert_eq!(after_confirm(Ok(false)), AfterConfirm::Retry);
    assert_eq!(after_confirm(Err(AskError::Canceled)), AfterConfirm::Retry);
    assert_eq!(after_confirm(Err(AskError::Interrupted)), AfterConfirm::Fail(AskError::Interrupted));
    assert_eq!(after_confirm(Err(io())), AfterConfirm::Fail(io()));
}

#[test]
fn numbers_run_out_before_the_last() {
    assert_eq!(next_number(1), Some(2));
    assert_eq!(next_number(LAST_NUMBER - 1), Some(LAST_NUMBER));
    assert_eq!(next_number(LAST_NUMBER), None);
    assert_eq!(next_number(u32::MAX), None);
    assert_eq!(LAST_NUMBER, u32::MAX - 1);
}

#[test]
fn questions_are_worded() {
    assert_eq!(kind_prompt(1), "[1] Add a factor:");
    assert_eq!(kind_prompt(12), "[12] Add a factor:");
    assert_eq!(confirm_title(true), "Wink command sent, is this the exact device you selected?");
    assert_eq!(
        confirm_title(false),
        "This device is not responding to wink command, continue anyway?"
    );
}
