//! The lock screen: the lock state, password checks and the count of failed
//! attempts, as the lock screen process and its window keep them.
use vstd::prelude::*;
use vstd::string::StringExecFns;
use crate::text::{decimal, str_eq, u64_to_decimal};

verus! {

/// Whether a screen is locked, and unlocking it with a password.
pub struct LockManager {
    pub is_locked: bool,
}

impl LockManager {
    /// A manager with the screen unlocked.
    pub fn new() -> (m: Self)
        ensures
            !m.is_locked,
    {
        LockManager { is_locked: false }
    }

    /// Locks the screen; locking a locked screen changes nothing.
    pub fn lock(&mut self)
        ensures
            final(self).is_locked,
    {
        if self.is_locked {
            return;
        }
        self.is_locked = true;
    }

    /// Tries to unlock with `password`: an unlocked screen stays unlocked
    /// and reports success; a locked one unlocks exactly when the password
    /// is the correct one.
    pub fn unlock(&mut self, password: &str, correct_password: &str) -> (ok: bool)
        ensures
            !old(self).is_locked ==> ok && !final(self).is_locked,
            old(self).is_locked ==> ok == (password@ == correct_password@) && final(self).is_locked
                == !ok,
    {
        if !self.is_locked {
            return true;
        }
        if str_eq(password, correct_password) {
            self.is_locked = false;
            true
        } else {
            false
        }
    }

    /// Whether the screen is locked.
    pub fn is_locked(&self) -> (r: bool)
        ensures
            r == self.is_locked,
    {
        self.is_locked
    }
}

impl Default for LockManager {
    fn default() -> (m: Self)
        ensures
            !m.is_locked,
    {
        LockManager::new()
    }
}

/// The outcome of one unlock attempt.
#[derive(Debug, Clone, Copy, PartialEq, Eq, Structural)]
pub enum UnlockResult {
    Success,
    Failure { attempts: u32, max_attempts: u32 },
    Cooldown { remaining_seconds: u64 },
}

/// Checks unlock attempts against the teacher's super password and counts
/// failures.  Five failures are allowed before the cool-down; the fields are
/// private, so that number is fixed for every locker.
pub struct Locker {
    super_password: String,
    attempts: u32,
    max_attempts: u32,
}

/// The outcome of one attempt with `input` on a locker with the given
/// password, failure count and allowance.
pub open spec fn spec_attempt_result(
    password: Seq<char>,
    attempts: u32,
    max_attempts: u32,
    input: Seq<char>,
) -> UnlockResult {
    if input == password {
        UnlockResult::Success
    } else if attempts + 1 >= max_attempts {
        UnlockResult::Cooldown { remaining_seconds: 30 }
    } else {
        UnlockResult::Failure { attempts: (attempts + 1) as u32, max_attempts }
    }
}

impl Locker {
    /// The allowance is always five.
    #[verifier::type_invariant]
    spec fn allowance_is_five(self) -> bool {
        self.max_attempts == 5
    }

    /// The password that unlocks.
    pub closed spec fn password(self) -> Seq<char> {
        self.super_password@
    }

    /// The failed attempts counted so far.
    pub closed spec fn attempts_made(self) -> u32 {
        self.attempts
    }

    /// The failed attempts allowed before the cool-down.
    pub closed spec fn allowed(self) -> u32 {
        self.max_attempts
    }

    /// A locker for `super_password` with no failed attempts and five allowed.
    pub fn new(super_password: &str) -> (l: Self)
        ensures
            l.password() == super_password@,
            l.attempts_made() == 0,
            l.allowed() == 5,
    {
        Locker { super_password: String::from_str(super_password), attempts: 0, max_attempts: 5 }
    }

    /// The failed attempts counted so far.
    pub fn attempts(&self) -> (n: u32)
        ensures
            n == self.attempts_made(),
    {
        self.attempts
    }

    /// One attempt: the right password succeeds and leaves the count alone;
    /// a wrong one is counted, and from the fifth failure on the answer is a
    /// 30-second cool-down.
    pub fn try_unlock(&mut self, input: &str) -> (r: UnlockResult)
        requires
            old(self).attempts_made() < u32::MAX,
        ensures
            r == spec_attempt_result(
                old(self).password(),
                old(self).attempts_made(),
                old(self).allowed(),
                input@,
            ),
            old(self).allowed() == 5,
            final(self).allowed() == 5,
            final(self).password() == old(self).password(),
            final(self).attempts_made() == if input@ == old(self).password() {
                old(self).attempts_made()
            } else {
                (old(self).attempts_made() + 1) as u32
            },
    {
        proof {
            use_type_invariant(&*self);
        }
        if str_eq(input, self.super_password.as_str()) {
            UnlockResult::Success
        } else {
            self.attempts = self.attempts + 1;
            if self.attempts >= self.max_attempts {
                UnlockResult::Cooldown { remaining_seconds: 30 }
            } else {
                UnlockResult::Failure { attempts: self.attempts, max_attempts: self.max_attempts }
            }
        }
    }

    /// Forgets the failed attempts.
    pub fn reset_attempts(&mut self)
        ensures
            final(self).attempts_made() == 0,
            final(self).password() == old(self).password(),
            final(self).allowed() == 5,
    {
        proof {
            use_type_invariant(&*self);
        }
        self.attempts = 0;
    }
}

/// After a reset, whatever came before, the next wrong password reports the
/// first failure of five.
pub proof fn lemma_first_failure_after_reset(password: Seq<char>, input: Seq<char>)
    requires
        input != password,
    ensures
        spec_attempt_result(password, 0, 5, input) == (UnlockResult::Failure {
            attempts: 1,
            max_attempts: 5,
        }),
{
}

/// The lock screen window's state.
pub struct LockApp {
    pub super_password: String,
    pub password_input: String,
    pub attempts: u32,
    pub max_attempts: u32,
    pub message: String,
    pub success: bool,
    pub unlocked: bool,
}

/// The attempts left: the allowed number less the failed ones, never below zero.
pub open spec fn attempts_left(max_attempts: u32, attempts: u32) -> int {
    if attempts <= max_attempts {
        max_attempts - attempts
    } else {
        0
    }
}

/// The message shown after a wrong password with `left` attempts to go.
pub open spec fn wrong_password_message(left: int) -> Seq<char> {
    if left == 0 {
        "密码错误次数过多，请联系教师"@
    } else {
        "密码错误，还可尝试 "@ + decimal(left as nat) + " 次"@
    }
}

/// What one check of the typed password does to the window: after success
/// nothing; the right password unlocks for good and says so; a wrong one is
/// counted, the input cleared, and the attempts left reported.  Nothing else
/// changes.
pub open spec fn spec_unlock_attempt(o: LockApp, f: LockApp) -> bool {
    if o.success {
        f == o
    } else if o.password_input@ == o.super_password@ {
        &&& f == (LockApp { success: true, unlocked: true, message: f.message, ..o })
        &&& f.message@ == "解锁成功，正在进入桌面"@
    } else {
        &&& f == (LockApp {
            attempts: (o.attempts + 1) as u32,
            password_input: f.password_input,
            message: f.message,
            ..o
        })
        &&& f.password_input@ == Seq::<char>::empty()
        &&& f.message@ == wrong_password_message(attempts_left(o.max_attempts, f.attempts))
    }
}

impl LockApp {
    /// A window for `super_password`: empty input, no failures, five attempts allowed.
    pub fn new(super_password: String) -> (a: Self)
        ensures
            a.super_password == super_password,
            a.password_input@ == Seq::<char>::empty(),
            a.attempts == 0,
            a.max_attempts == 5,
            a.message@ == Seq::<char>::empty(),
            !a.success,
            !a.unlocked,
    {
        LockApp {
            super_password,
            password_input: String::new(),
            attempts: 0,
            max_attempts: 5,
            message: String::new(),
            success: false,
            unlocked: false,
        }
    }

    /// The attempts left.
    pub fn remaining(&self) -> (r: u32)
        ensures
            r == attempts_left(self.max_attempts, self.attempts),
    {
        self.max_attempts.saturating_sub(self.attempts)
    }

    /// Checks the typed password: the right one unlocks for good; a wrong
    /// one is counted, the input cleared, and the attempts left reported.
    /// After success nothing changes any more.
    pub fn try_unlock(&mut self)
        requires
            old(self).attempts < u32::MAX,
        ensures
            spec_unlock_attempt(*old(self), *final(self)),
    {
        if self.success {
            return;
        }
        if str_eq(self.password_input.as_str(), self.super_password.as_str()) {
            self.success = true;
            self.message = String::from_str("解锁成功，正在进入桌面");
            self.unlocked = true;
        } else {
            self.attempts = self.attempts + 1;
            self.password_input = String::new();
            let left = self.remaining();
            if left == 0 {
                self.message = String::from_str("密码错误次数过多，请联系教师");
            } else {
                let mut m = String::from_str("密码错误，还可尝试 ");
                let n = u64_to_decimal(left as u64);
                m.append(n.as_str());
                m.append(" 次");
                self.message = m;
            }
        }
    }
}

impl LockApp {
    /// Whether the window ends the lock screen process: the password was
    /// accepted and the unlock recorded.
    pub fn should_exit(&self) -> (r: bool)
        ensures
            r == (self.unlocked && self.success),
    {
        self.unlocked && self.success
    }

    /// The Enter key: checks the typed password when something was typed.
    pub fn on_enter(&mut self)
        requires
            old(self).attempts < u32::MAX,
        ensures
            old(self).password_input@.len() == 0 ==> *final(self) == *old(self),
            old(self).password_input@.len() > 0 ==> spec_unlock_attempt(*old(self), *final(self)),
    {
        if !self.password_input.as_str().is_empty() {
            self.try_unlock();
        }
    }

    /// The line that shows the attempts left out of those allowed.
    pub fn attempts_label(&self) -> (s: String)
        ensures
            s@ == "剩余尝试次数："@ + decimal(attempts_left(self.max_attempts, self.attempts) as nat)
                + "/"@ + decimal(self.max_attempts as nat),
    {
        let mut s = String::from_str("剩余尝试次数：");
        let left = u64_to_decimal(self.remaining() as u64);
        s.append(left.as_str());
        s.append("/");
        let max = u64_to_decimal(self.max_attempts as u64);
        s.append(max.as_str());
        s
    }
}

/// The lock screen's password from its arguments (the first after the
/// program name); without one the program stops with its usage line.
pub fn lock_password_arg(args: &Vec<String>) -> (r: Result<String, String>)
    ensures
        args@.len() >= 2 ==> (r matches Ok(p) && p@ == args@[1]@),
        args@.len() < 2 ==> (r matches Err(e) && e@ == "用法: campus-lock <超级密码>"@),
{
    if args.len() >= 2 {
        Ok(args[1].clone())
    } else {
        Err(String::from_str("用法: campus-lock <超级密码>"))
    }
}

/// Each wrong attempt takes one from the attempts left until none are
/// left, and none are left exactly when the failures reach the allowed number.
pub proof fn lemma_attempts_left_decrease(max_attempts: u32, attempts: u32)
    requires
        attempts < u32::MAX,
    ensures
        attempts_left(max_attempts, (attempts + 1) as u32) <= attempts_left(max_attempts, attempts),
        attempts < max_attempts ==> attempts_left(max_attempts, (attempts + 1) as u32)
            == attempts_left(max_attempts, attempts) - 1,
        attempts_left(max_attempts, attempts) == 0 <==> attempts >= max_attempts,
{
}

/// What an attempt answers, over every state: the right password and only it
/// succeeds; a `Failure` always reports the count one past the failures so
/// far and stays below the allowance; and every wrong password that brings
/// the count to the allowance or beyond is the 30-second cool-down.
pub proof fn lemma_attempt_answers(
    password: Seq<char>,
    attempts: u32,
    max_attempts: u32,
    input: Seq<char>,
)
    ensures
        (spec_attempt_result(password, attempts, max_attempts, input) == UnlockResult::Success)
            <==> input == password,
        spec_attempt_result(password, attempts, max_attempts, input) matches UnlockResult::Failure {
            attempts: k,
            max_attempts: m,
        } ==> k == attempts + 1 && m == max_attempts && k < m,
        input != password && attempts + 1 >= max_attempts ==> spec_attempt_result(
            password,
            attempts,
            max_attempts,
            input,
        ) == (UnlockResult::Cooldown { remaining_seconds: 30 }),
{
}

} // verus!
