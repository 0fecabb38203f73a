//! Plain-value models of the execution host's account, token and
//! promise types: what the refund logic reads and produces.

use vstd::prelude::*;

verus! {

/// Whether a character is one of the separators an account identifier
/// may contain.
pub open spec fn is_separator(c: char) -> bool {
    c == '-' || c == '_' || c == '.'
}

/// Whether a character may occur in an account identifier: a lowercase
/// letter, a digit, or a separator.
pub open spec fn is_account_char(c: char) -> bool {
    ('a' as u32 <= c as u32 && c as u32 <= 'z' as u32) || ('0' as u32 <= c as u32 && c as u32
        <= '9' as u32) || is_separator(c)
}

/// A well-formed account identifier: 2 to 64 characters, each a
/// lowercase letter, digit or separator; a separator never stands
/// first or last and never follows another separator.
pub open spec fn is_valid_account_id(s: Seq<char>) -> bool {
    &&& 2 <= s.len() <= 64
    &&& forall|i: int| 0 <= i < s.len() ==> is_account_char(#[trigger] s[i])
    &&& !is_separator(s[0])
    &&& !is_separator(s[s.len() - 1])
    &&& forall|i: int| 1 <= i < s.len() ==> !(is_separator(#[trigger] s[i]) && is_separator(
        s[i - 1],
    ))
}

fn is_separator_char(c: char) -> (r: bool)
    ensures
        r == is_separator(c),
{
    c == '-' || c == '_' || c == '.'
}

fn is_account_char_exec(c: char) -> (r: bool)
    ensures
        r == is_account_char(c),
{
    let u = c as u32;
    ('a' as u32 <= u && u <= 'z' as u32) || ('0' as u32 <= u && u <= '9' as u32)
        || is_separator_char(c)
}

/// Check a string against the account-identifier rules.
#[verifier::loop_isolation(false)]
pub fn validate_account_str(s: &str) -> (r: bool)
    ensures
        r == is_valid_account_id(s@),
{
    let n = s.unicode_len();
    if n < 2 || n > 64 {
        return false;
    }
    let mut i: usize = 0;
    while i < n
        invariant
            0 <= i <= n,
            forall|j: int| 0 <= j < i ==> is_account_char(#[trigger] s@[j]),
            forall|j: int| 1 <= j < i ==> !(is_separator(#[trigger] s@[j]) && is_separator(
                s@[j - 1],
            )),
        decreases n - i,
    {
        let c = s.get_char(i);
        if !is_account_char_exec(c) {
            return false;
        }
        if i > 0 {
            let prev = s.get_char(i - 1);
            if is_separator_char(c) && is_separator_char(prev) {
                return false;
            }
        }
        i = i + 1;
    }
    if is_separator_char(s.get_char(0)) {
        return false;
    }
    if is_separator_char(s.get_char(n - 1)) {
        return false;
    }
    true
}

/// An account identifier, always well-formed by construction.
#[derive(PartialEq, Eq, Debug)]
pub struct AccountId {
    id: String,
}

impl Clone for AccountId {
    fn clone(&self) -> (res: Self)
        ensures
            res == *self,
    {
        proof {
            use_type_invariant(self);
        }
        AccountId { id: self.id.clone() }
    }
}

impl View for AccountId {
    type V = Seq<char>;

    closed spec fn view(&self) -> Seq<char> {
        self.id@
    }
}

impl AccountId {
    /// Every account identifier in existence satisfies the
    /// well-formedness rules.
    #[verifier::type_invariant]
    pub open spec fn wf(self) -> bool {
        is_valid_account_id(self@)
    }

    /// Validate a string into an account identifier; refuses exactly
    /// the strings that break the rules.
    pub fn new(id: String) -> (r: Result<AccountId, crate::standard_errors::InvalidArgument>)
        ensures
            (match r {
                Result::Ok(a) => a@ == id@ && is_valid_account_id(id@),
                Result::Err(e) => !is_valid_account_id(id@) && e.message@
                    == "The account ID is invalid"@,
            }),
    {
        if validate_account_str(id.as_str()) {
            Ok(AccountId { id })
        } else {
            Err(
                crate::standard_errors::InvalidArgument {
                    message: String::from_str("The account ID is invalid"),
                },
            )
        }
    }

    /// The identifier as a string slice.
    pub fn as_str(&self) -> (r: &str)
        ensures
            r@ == self@,
    {
        self.id.as_str()
    }

    /// The identifier's length in characters; its characters are all
    /// ASCII, so this is also its length in bytes.
    pub fn len(&self) -> (r: usize)
        ensures
            r == self@.len(),
            2 <= r <= 64,
    {
        proof {
            use_type_invariant(self);
        }
        self.id.as_str().unicode_len()
    }
}

/// An amount of the host's native token, counted in its smallest
/// indivisible unit.
#[derive(Clone, Copy, PartialEq, Eq, Structural, Debug)]
pub struct NearToken {
    /// The amount in the smallest unit.
    pub yoctonear: u128,
}

/// Multiplication clamped to the largest representable amount.
pub open spec fn spec_saturating_mul(a: u128, b: u128) -> u128 {
    if a * b > u128::MAX {
        u128::MAX
    } else {
        (a * b) as u128
    }
}

impl NearToken {
    /// The amount of a number of smallest units.
    pub fn from_yoctonear(yoctonear: u128) -> (r: NearToken)
        ensures
            r.yoctonear == yoctonear,
    {
        NearToken { yoctonear }
    }

    /// The amount as a number of smallest units.
    pub fn as_yoctonear(&self) -> (r: u128)
        ensures
            r == self.yoctonear,
    {
        self.yoctonear
    }

    /// Multiply by a scalar, clamping at the largest representable
    /// amount instead of overflowing.
    pub fn saturating_mul(self, rhs: u128) -> (r: NearToken)
        ensures
            r.yoctonear == spec_saturating_mul(self.yoctonear, rhs),
    {
        match self.yoctonear.checked_mul(rhs) {
            Some(v) => NearToken { yoctonear: v },
            None => NearToken { yoctonear: u128::MAX },
        }
    }

    /// Subtract another amount, clamping at zero instead of
    /// overflowing.
    pub fn saturating_sub(self, rhs: NearToken) -> (r: NearToken)
        ensures
            r.yoctonear == if self.yoctonear >= rhs.yoctonear {
                (self.yoctonear - rhs.yoctonear) as u128
            } else {
                0u128
            },
    {
        NearToken { yoctonear: self.yoctonear.saturating_sub(rhs.yoctonear) }
    }
}

/// The digit character of a value below ten.
pub open spec fn spec_digit_char(d: int) -> char {
    if d == 0 {
        '0'
    } else if d == 1 {
        '1'
    } else if d == 2 {
        '2'
    } else if d == 3 {
        '3'
    } else if d == 4 {
        '4'
    } else if d == 5 {
        '5'
    } else if d == 6 {
        '6'
    } else if d == 7 {
        '7'
    } else if d == 8 {
        '8'
    } else {
        '9'
    }
}

/// The decimal rendering of a non-negative number: its digits, most
/// significant first, with no leading zero except for zero itself.
pub open spec fn spec_decimal(n: int) -> Seq<char>
    decreases n,
{
    if n < 10 {
        seq![spec_digit_char(n)]
    } else {
        spec_decimal(n / 10).push(spec_digit_char(n % 10))
    }
}

fn digit_str(d: u128) -> (r: &'static str)
    requires
        d < 10,
    ensures
        r@ =~= seq![spec_digit_char(d as int)],
{
    proof {
        reveal_strlit("0");
        reveal_strlit("1");
        reveal_strlit("2");
        reveal_strlit("3");
        reveal_strlit("4");
        reveal_strlit("5");
        reveal_strlit("6");
        reveal_strlit("7");
        reveal_strlit("8");
        reveal_strlit("9");
    }
    if d == 0 {
        "0"
    } else if d == 1 {
        "1"
    } else if d == 2 {
        "2"
    } else if d == 3 {
        "3"
    } else if d == 4 {
        "4"
    } else if d == 5 {
        "5"
    } else if d == 6 {
        "6"
    } else if d == 7 {
        "7"
    } else if d == 8 {
        "8"
    } else {
        "9"
    }
}

/// Render a number in decimal.
pub fn u128_to_decimal(n: u128) -> (r: String)
    ensures
        r@ == spec_decimal(n as int),
    decreases n,
{
    if n < 10 {
        String::from_str(digit_str(n))
    } else {
        let mut s = u128_to_decimal(n / 10);
        s.append(digit_str(n % 10));
        proof {
            assert(spec_decimal((n / 10) as int).push(spec_digit_char((n % 10) as int))
                =~= spec_decimal((n / 10) as int) + seq![spec_digit_char((n % 10) as int)]);
        }
        s
    }
}

/// One action of a promise.
#[derive(Clone, Copy, PartialEq, Eq, Structural, Debug)]
pub enum PromiseAction {
    /// Transfer an amount to the promise's receiver.
    Transfer(NearToken),
}

/// A pending host action directed at an account: the receiver and the
/// actions queued for it, in order. Scheduling it is the host's work.
#[derive(Clone, PartialEq, Eq, Debug)]
pub struct Promise {
    /// The account the actions are directed at.
    pub account_id: AccountId,
    /// The queued actions, in order.
    pub actions: Vec<PromiseAction>,
}

impl Promise {
    /// A fresh promise directed at an account, with no action yet.
    pub fn new(account_id: AccountId) -> (r: Promise)
        ensures
            r.account_id == account_id,
            r.actions@ == Seq::<PromiseAction>::empty(),
    {
        Promise { account_id, actions: Vec::new() }
    }

    /// Queue a transfer of the given amount.
    pub fn transfer(self, amount: NearToken) -> (r: Promise)
        ensures
            r.account_id == self.account_id,
            r.actions@ == self.actions@.push(PromiseAction::Transfer(amount)),
    {
        let mut actions = self.actions;
        actions.push(PromiseAction::Transfer(amount));
        Promise { account_id: self.account_id, actions }
    }
}

} // verus!
