//! Checking that the wallet holds the fee, and what to tell the person who
//! may top it up.

use vstd::prelude::*;
use vstd::string::{StringExecFns, StringSliceAdditionalSpecFns};
use crate::error::{Coin, DaemonError};

verus! {

/// The character that writes a digit.
pub open spec fn digit_char(d: int) -> char {
    if d == 0 {
        '0'
    } else if d == 1 {
        '1'
    } else if d == 2 {
        '2'
    } else if d == 3 {
        '3'
    } else if d == 4 {
        '4'
    } else if d == 5 {
        '5'
    } else if d == 6 {
        '6'
    } else if d == 7 {
        '7'
    } else if d == 8 {
        '8'
    } else {
        '9'
    }
}

/// A number written in base ten, without leading zeros.
pub open spec fn decimal_text(n: nat) -> Seq<char>
    decreases n,
{
    if n < 10 {
        seq![digit_char(n as int)]
    } else {
        decimal_text(n / 10).push(digit_char((n % 10) as int))
    }
}

fn digit_str(d: u8) -> (s: &'static str)
    requires
        d < 10,
    ensures
        s@ == seq![digit_char(d as int)],
{
    proof {
        reveal_strlit("0");
        reveal_strlit("1");
        reveal_strlit("2");
        reveal_strlit("3");
        reveal_strlit("4");
        reveal_strlit("5");
        reveal_strlit("6");
        reveal_strlit("7");
        reveal_strlit("8");
        reveal_strlit("9");
    }
    let s = if d == 0 {
        "0"
    } else if d == 1 {
        "1"
    } else if d == 2 {
        "2"
    } else if d == 3 {
        "3"
    } else if d == 4 {
        "4"
    } else if d == 5 {
        "5"
    } else if d == 6 {
        "6"
    } else if d == 7 {
        "7"
    } else if d == 8 {
        "8"
    } else {
        "9"
    };
    assert(s@ =~= seq![digit_char(d as int)]);
    s
}

/// Writes an amount in base ten.
pub fn amount_text(n: u128) -> (text: String)
    ensures
        text@ == decimal_text(n as nat),
    decreases n,
{
    let digit = digit_str((n % 10) as u8);
    if n < 10 {
        digit.to_owned()
    } else {
        let mut text = amount_text(n / 10);
        text.append(digit);
        assert(text@ =~= decimal_text((n / 10) as nat).push(digit_char((n % 10) as int)));
        text
    }
}

/// What is shown when the wallet holds less than the fee: the chain, the
/// address, the amount needed and the amount held.
pub open spec fn shortfall_message(
    chain_id: Seq<char>,
    address: Seq<char>,
    needed: Coin,
    held: Coin,
) -> Seq<char> {
    "Not enough funds on chain "@ + chain_id + " at address "@ + address + ". Needed: "@
        + decimal_text(needed.amount as nat) + needed.denom@ + " but only have: "@ + decimal_text(
        held.amount as nat,
    ) + held.denom@ + ". Top up the wallet and answer 'y' to go on."@
}

/// Builds the shortfall message.
pub fn build_shortfall_message(chain_id: &str, address: &str, needed: &Coin, held: &Coin) -> (text:
    String)
    ensures
        text@ == shortfall_message(chain_id@, address@, *needed, *held),
{
    let mut text = "Not enough funds on chain ".to_owned();
    text.append(chain_id);
    text.append(" at address ");
    text.append(address);
    text.append(". Needed: ");
    text.append(amount_text(needed.amount).as_str());
    text.append(needed.denom.as_str());
    text.append(" but only have: ");
    text.append(amount_text(held.amount).as_str());
    text.append(held.denom.as_str());
    text.append(". Top up the wallet and answer 'y' to go on.");
    text
}

/// Whether the balance is read before a transaction is submitted.
#[derive(Debug, Clone, PartialEq, Eq)]
pub enum BalanceQuery {
    /// The settings switch the check off: the balance is not read.
    Skip,
    /// Read the balance in this denomination and check it against the fee.
    Ask { denom: String },
}

/// What follows a look at the balance.
#[derive(Debug, Clone, PartialEq, Eq)]
pub enum BalanceStep {
    /// The wallet holds the fee.
    Proceed,
    /// Show the message, wait for an answer, and hand the answer to
    /// `after_answer`.
    AskToTopUp { message: String },
    /// The wallet holds too little and nobody may be asked: show the
    /// message, then report the error.
    GiveUp { message: String, error: DaemonError },
    /// The check itself failed.
    Fail(DaemonError),
}

/// The error that reports a wallet holding less than the fee.
pub open spec fn shortfall(fee: Coin, balance: Coin) -> DaemonError {
    DaemonError::InsufficientBalance { expected: fee, current: balance }
}

/// Builds the error that reports a wallet holding less than the fee.
pub fn shortfall_error(fee: &Coin, balance: &Coin) -> (e: DaemonError)
    ensures
        e == shortfall(*fee, *balance),
{
    DaemonError::InsufficientBalance {
        expected: Coin { denom: fee.denom.clone(), amount: fee.amount },
        current: Coin { denom: balance.denom.clone(), amount: balance.amount },
    }
}

/// An answer confirms where it holds the letter y, small or capital.
pub open spec fn is_confirmation(answer: Seq<u8>) -> bool {
    exists|i: int| 0 <= i < answer.len() && (answer[i] == 121 || answer[i] == 89)
}

/// Whether an answer confirms.
pub fn confirms(answer: &str) -> (confirmed: bool)
    ensures
        confirmed == is_confirmation(answer.spec_bytes()),
{
    let bytes = answer.as_bytes();
    let mut i: usize = 0;
    while i < bytes.len()
        invariant
            i <= bytes.len(),
            bytes@ == answer.spec_bytes(),
            forall|j: int| 0 <= j < i ==> !(bytes@[j] == 121 || bytes@[j] == 89),
        decreases bytes.len() - i,
    {
        if bytes[i] == 121 || bytes[i] == 89 {
            return true;
        }
        i += 1;
    }
    false
}

/// Decides what follows the answer of the person who was asked to top up
/// the wallet: on a confirmation the balance is read and checked again,
/// else the shortfall is final.
pub fn after_answer(answer: &str, fee: &Coin, balance: &Coin) -> (r: Result<(), DaemonError>)
    ensures
        is_confirmation(answer.spec_bytes()) ==> r.is_ok(),
        !is_confirmation(answer.spec_bytes()) ==> r == Err::<(), DaemonError>(
            shortfall(*fee, *balance),
        ),
{
    if confirms(answer) {
        Ok(())
    } else {
        Err(shortfall_error(fee, balance))
    }
}

} // verus!
