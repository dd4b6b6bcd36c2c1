//! The value objects of a listed company record, each with the checks that its
//! values must pass.

use vstd::prelude::*;

verus! {

/// A value that breaks a rule of the domain.
#[derive(Debug, Clone, PartialEq, Eq)]
pub enum DomainError {
    ValidationError(String),
}

impl DomainError {
    /// The message of the failure.
    pub fn message(&self) -> (m: String)
        ensures
            m@ == match *self {
                DomainError::ValidationError(s) => s@,
            },
    {
        match self {
            DomainError::ValidationError(s) => s.clone(),
        }
    }
}

impl From<DomainError> for String {
    /// The message of the failure.
    fn from(error: DomainError) -> (s: String)
        ensures
            s == match error {
                DomainError::ValidationError(m) => m,
            },
    {
        match error {
            DomainError::ValidationError(message) => message,
        }
    }
}

impl vstd::std_specs::convert::FromSpecImpl<DomainError> for String {
    open spec fn obeys_from_spec() -> bool {
        true
    }

    open spec fn from_spec(v: DomainError) -> String {
        match v {
            DomainError::ValidationError(m) => m,
        }
    }
}

fn validation_error(text: &str) -> (e: DomainError)
    ensures
        e == DomainError::ValidationError(e->ValidationError_0),
        e->ValidationError_0@ == text@,
{
    DomainError::ValidationError(String::from_str(text))
}

/// A record's identifier in the store.
#[derive(Debug, Clone, Copy, PartialEq, Eq, Default)]
pub struct Id(i32);

impl Id {
    pub fn new(value: i32) -> (id: Id)
        ensures
            id.value() == value,
    {
        Id(value)
    }

    pub closed spec fn value(&self) -> i32 {
        self.0
    }

    /// The number that the identifier holds.
    pub fn get(&self) -> (v: i32)
        ensures
            v == self.value(),
    {
        self.0
    }
}

/// A company's English name, when it has one.
#[derive(Debug, Clone, PartialEq, Eq, Default)]
pub struct EnglishName(Option<String>);

impl EnglishName {
    pub fn new(value: Option<String>) -> (n: EnglishName)
        ensures
            n.value() == value,
    {
        EnglishName(value)
    }

    pub closed spec fn value(&self) -> Option<String> {
        self.0
    }

    pub fn get(&self) -> (v: &Option<String>)
        ensures
            *v == self.value(),
    {
        &self.0
    }
}

/// A company's Japanese name, when it has one.
#[derive(Debug, Clone, PartialEq, Eq, Default)]
pub struct JapaneseName(Option<String>);

impl JapaneseName {
    pub fn new(value: Option<String>) -> (n: JapaneseName)
        ensures
            n.value() == value,
    {
        JapaneseName(value)
    }

    pub closed spec fn value(&self) -> Option<String> {
        self.0
    }

    pub fn get(&self) -> (v: &Option<String>)
        ensures
            *v == self.value(),
    {
        &self.0
    }
}

/// The number of bytes that a character takes in UTF-8.
pub open spec fn utf8_width(c: char) -> nat {
    if (c as u32) < 0x80 {
        1
    } else if (c as u32) < 0x800 {
        2
    } else if (c as u32) < 0x10000 {
        3
    } else {
        4
    }
}

/// The number of bytes that a text takes in UTF-8.
pub open spec fn utf8_len(s: Seq<char>) -> nat
    decreases s.len(),
{
    if s.len() == 0 {
        0
    } else {
        utf8_len(s.drop_last()) + utf8_width(s.last())
    }
}

pub open spec fn is_ascii_alphanumeric(c: char) -> bool {
    ('0' <= c && c <= '9') || ('a' <= c && c <= 'z') || ('A' <= c && c <= 'Z')
}

/// What is wrong with a local code, if anything: it must be four bytes long,
/// all ASCII letters or digits.
pub open spec fn local_code_problem(s: Seq<char>) -> Option<Seq<char>> {
    if s.len() == 0 {
        Some("Local code is empty"@)
    } else if utf8_len(s) != 4 {
        Some("Local code must be 4 digits"@)
    } else if !(forall|i: int| 0 <= i < s.len() ==> is_ascii_alphanumeric(#[trigger] s[i])) {
        Some("Local code must be alphanumeric"@)
    } else {
        None
    }
}

/// The outcome of a check: `Ok` when there is no problem, else the validation
/// error with the problem's message.
pub open spec fn check_outcome(r: Result<(), DomainError>, problem: Option<Seq<char>>) -> bool {
    match problem {
        None => r is Ok,
        Some(m) => r matches Err(DomainError::ValidationError(t)) && t@ == m,
    }
}

/// The byte length of a text in UTF-8, up to a cap: the exact length when it is
/// at most `cap`, else something above `cap`.
fn utf8_len_capped(s: &str, cap: usize) -> (n: usize)
    requires
        cap < usize::MAX - 4,
    ensures
        n <= cap ==> n == utf8_len(s@),
        n > cap ==> utf8_len(s@) > cap,
{
    let len = s.unicode_len();
    let mut total: usize = 0;
    let mut i: usize = 0;
    while i < len
        invariant
            len == s@.len(),
            i <= len,
            cap < usize::MAX - 4,
            total <= cap,
            total == utf8_len(s@.subrange(0, i as int)),
        decreases len - i,
    {
        let c = s.get_char(i);
        let w: usize = if (c as u32) < 0x80 {
            1
        } else if (c as u32) < 0x800 {
            2
        } else if (c as u32) < 0x10000 {
            3
        } else {
            4
        };
        proof {
            assert(s@.subrange(0, i + 1).drop_last() =~= s@.subrange(0, i as int));
        }
        total = total + w;
        i = i + 1;
        if total > cap {
            proof {
                lemma_utf8_len_prefix(s@, i as int);
            }
            return total;
        }
    }
    proof {
        assert(s@.subrange(0, len as int) =~= s@);
    }
    total
}

proof fn lemma_utf8_len_prefix(s: Seq<char>, i: int)
    requires
        0 <= i <= s.len(),
    ensures
        utf8_len(s.subrange(0, i)) <= utf8_len(s),
    decreases s.len() - i,
{
    if i < s.len() {
        lemma_utf8_len_prefix(s, i + 1);
        assert(s.subrange(0, i + 1).drop_last() =~= s.subrange(0, i));
    } else {
        assert(s.subrange(0, i) =~= s);
    }
}

/// A company's local code on the exchange.
#[derive(Debug, Clone, PartialEq, Eq, Default)]
pub struct LocalCode(String);

impl LocalCode {
    pub closed spec fn value(&self) -> Seq<char> {
        self.0@
    }

    /// A local code from its text, when the text passes `validate`.
    pub fn parse(value: String) -> (r: Result<LocalCode, DomainError>)
        ensures
            match local_code_problem(value@) {
                None => r matches Ok(c) && c.value() == value@,
                Some(m) => r matches Err(DomainError::ValidationError(t)) && t@ == m,
            },
    {
        let code = LocalCode(value);
        match code.validate() {
            Ok(()) => Ok(code),
            Err(e) => Err(e),
        }
    }

    /// The code's text.
    pub fn as_str(&self) -> (s: &str)
        ensures
            s@ == self.value(),
    {
        self.0.as_str()
    }

    /// Checks that the code is four bytes long, all ASCII letters or digits;
    /// the messages tell which rule failed first.
    pub fn validate(&self) -> (r: Result<(), DomainError>)
        ensures
            check_outcome(r, local_code_problem(self.value())),
    {
        let value = self.0.as_str();
        let n = value.unicode_len();
        if n == 0 {
            return Err(validation_error("Local code is empty"));
        }
        if utf8_len_capped(value, 4) != 4 {
            return Err(validation_error("Local code must be 4 digits"));
        }
        let mut i: usize = 0;
        while i < n
            invariant
                n == value@.len(),
                value@ == self.value(),
                utf8_len(value@) == 4,
                i <= n,
                forall|k: int| 0 <= k < i ==> is_ascii_alphanumeric(#[trigger] value@[k]),
            decreases n - i,
        {
            let c = value.get_char(i);
            if !(('0' <= c && c <= '9') || ('a' <= c && c <= 'z') || ('A' <= c && c <= 'Z')) {
                assert(!is_ascii_alphanumeric(value@[i as int]));
                return Err(validation_error("Local code must be alphanumeric"));
            }
            i = i + 1;
        }
        Ok(())
    }
}

/// The market section a company is listed in.
#[derive(Debug, Clone, PartialEq, Eq, Default)]
pub struct Section(String);

impl Section {
    pub closed spec fn value(&self) -> Seq<char> {
        self.0@
    }

    /// A section from its text; every text is accepted.
    pub fn parse(value: String) -> (r: Result<Section, DomainError>)
        ensures
            r matches Ok(s) && s.value() == value@,
    {
        Ok(Section(value))
    }

    pub fn as_str(&self) -> (s: &str)
        ensures
            s@ == self.value(),
    {
        self.0.as_str()
    }
}

/// A company's size code, when it has one; every value is accepted.
#[derive(Debug, Clone, Copy, PartialEq, Eq, Default)]
pub struct SizeCode(Option<i16>);

impl SizeCode {
    pub closed spec fn value(&self) -> Option<i16> {
        self.0
    }

    pub fn parse(value: Option<i16>) -> (r: Result<SizeCode, DomainError>)
        ensures
            r matches Ok(c) && c.value() == value,
    {
        Ok(SizeCode(value))
    }

    pub fn get(&self) -> (v: Option<i16>)
        ensures
            v == self.value(),
    {
        self.0
    }
}

} // verus!
