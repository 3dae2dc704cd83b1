//! Bounded text: strings that carry a maximum length in characters.
//!
//! Each type wraps a `String` and can only be obtained through its
//! validating constructor, so a value that breaks its bound never exists.
//! Nothing is trimmed or folded: the constructors are pure length gates,
//! and the length is counted in characters, not bytes.

use vstd::prelude::*;
use vstd::std_specs::cmp::PartialEqSpecImpl;
use vstd::string::*;

verus! {

/// An error that can be shown to the person who caused it.
pub trait UserFacingError {
    /// The message to show.
    fn formatted_error(&self) -> &'static str;
}

/// Why a [`Headline`] could not be built.
#[derive(Debug, Clone, Copy, PartialEq, Eq, Structural)]
pub enum HeadlineError {
    /// The text has more than [`Headline::MAX_CHARS`] characters.
    TooLong,
}

/// A post's headline of at most [`Headline::MAX_CHARS`] characters.
#[derive(Debug)]
pub struct Headline(String);

impl View for Headline {
    type V = Seq<char>;

    closed spec fn view(&self) -> Seq<char> {
        self.0@
    }
}

impl Headline {
    /// The largest number of characters that a headline may hold.
    pub const MAX_CHARS: usize = 30;

    #[verifier::type_invariant]
    spec fn within_bound(self) -> bool {
        self.0@.len() <= Self::MAX_CHARS
    }

    /// Whether `raw` is short enough to be a headline.
    pub open spec fn accepts(raw: Seq<char>) -> bool {
        raw.len() <= Self::MAX_CHARS
    }

    /// Wraps `raw`, unchanged, when it has at most `MAX_CHARS` characters,
    /// and refuses it as too long otherwise.
    pub fn new(raw: String) -> (res: Result<Headline, HeadlineError>)
        ensures
            Self::accepts(raw@) ==> res is Ok && res->Ok_0@ == raw@,
            !Self::accepts(raw@) ==> res == Err::<Headline, HeadlineError>(HeadlineError::TooLong),
    {
        let count: usize = raw.as_str().unicode_len();
        if count > Self::MAX_CHARS {
            Err(HeadlineError::TooLong)
        } else {
            Ok(Headline(raw))
        }
    }

    /// The text, borrowed.
    pub fn as_ref(&self) -> (res: &str)
        ensures
            res@ == self@,
            Self::accepts(res@),
    {
        proof {
            use_type_invariant(self);
        }
        self.0.as_str()
    }

    /// The text, by value.
    pub fn into_inner(self) -> (res: String)
        ensures
            res@ == self@,
            Self::accepts(res@),
    {
        proof {
            use_type_invariant(&self);
        }
        self.0
    }

    /// The number of characters held: never more than `MAX_CHARS`.
    pub fn char_count(&self) -> (res: usize)
        ensures
            res == self@.len(),
            res <= Self::MAX_CHARS,
    {
        proof {
            use_type_invariant(self);
        }
        self.0.as_str().unicode_len()
    }
}

impl Clone for Headline {
    fn clone(&self) -> (res: Self)
        ensures
            res == *self,
    {
        proof {
            use_type_invariant(self);
        }
        Headline(self.0.clone())
    }
}

impl PartialEq for Headline {
    fn eq(&self, other: &Self) -> (res: bool) {
        self.0 == other.0
    }
}

impl PartialEqSpecImpl for Headline {
    open spec fn obeys_eq_spec() -> bool {
        true
    }

    open spec fn eq_spec(&self, other: &Self) -> bool {
        self@ == other@
    }
}

impl UserFacingError for HeadlineError {
    fn formatted_error(&self) -> (res: &'static str)
        ensures
            res@ == "Headline is too long. Must be at most 30 characters."@,
    {
        match self {
            HeadlineError::TooLong => "Headline is too long. Must be at most 30 characters.",
        }
    }
}


/// Why a [`Message`] could not be built.
#[derive(Debug, Clone, Copy, PartialEq, Eq, Structural)]
pub enum MessageError {
    /// The text has more than [`Message::MAX_CHARS`] characters.
    TooLong,
}

/// A post's message of at most [`Message::MAX_CHARS`] characters.
#[derive(Debug)]
pub struct Message(String);

impl View for Message {
    type V = Seq<char>;

    closed spec fn view(&self) -> Seq<char> {
        self.0@
    }
}

impl Message {
    /// The largest number of characters that a message may hold.
    pub const MAX_CHARS: usize = 100;

    #[verifier::type_invariant]
    spec fn within_bound(self) -> bool {
        self.0@.len() <= Self::MAX_CHARS
    }

    /// Whether `raw` is short enough to be a message.
    pub open spec fn accepts(raw: Seq<char>) -> bool {
        raw.len() <= Self::MAX_CHARS
    }

    /// Wraps `raw`, unchanged, when it has at most `MAX_CHARS` characters,
    /// and refuses it as too long otherwise.
    pub fn new(raw: String) -> (res: Result<Message, MessageError>)
        ensures
            Self::accepts(raw@) ==> res is Ok && res->Ok_0@ == raw@,
            !Self::accepts(raw@) ==> res == Err::<Message, MessageError>(MessageError::TooLong),
    {
        let count: usize = raw.as_str().unicode_len();
        if count > Self::MAX_CHARS {
            Err(MessageError::TooLong)
        } else {
            Ok(Message(raw))
        }
    }

    /// The text, borrowed.
    pub fn as_ref(&self) -> (res: &str)
        ensures
            res@ == self@,
            Self::accepts(res@),
    {
        proof {
            use_type_invariant(self);
        }
        self.0.as_str()
    }

    /// The text, by value.
    pub fn into_inner(self) -> (res: String)
        ensures
            res@ == self@,
            Self::accepts(res@),
    {
        proof {
            use_type_invariant(&self);
        }
        self.0
    }

    /// The number of characters held: never more than `MAX_CHARS`.
    pub fn char_count(&self) -> (res: usize)
        ensures
            res == self@.len(),
            res <= Self::MAX_CHARS,
    {
        proof {
            use_type_invariant(self);
        }
        self.0.as_str().unicode_len()
    }
}

impl Clone for Message {
    fn clone(&self) -> (res: Self)
        ensures
            res == *self,
    {
        proof {
            use_type_invariant(self);
        }
        Message(self.0.clone())
    }
}

impl PartialEq for Message {
    fn eq(&self, other: &Self) -> (res: bool) {
        self.0 == other.0
    }
}

impl PartialEqSpecImpl for Message {
    open spec fn obeys_eq_spec() -> bool {
        true
    }

    open spec fn eq_spec(&self, other: &Self) -> bool {
        self@ == other@
    }
}

impl UserFacingError for MessageError {
    fn formatted_error(&self) -> (res: &'static str)
        ensures
            res@ == "Message is too long. Must be at most 100 characters."@,
    {
        match self {
            MessageError::TooLong => "Message is too long. Must be at most 100 characters.",
        }
    }
}


/// Why a [`DisplayName`] could not be built.
#[derive(Debug, Clone, Copy, PartialEq, Eq, Structural)]
pub enum DisplayNameError {
    /// The text has more than [`DisplayName::MAX_CHARS`] characters.
    TooLong,
}

/// The name a user is shown under of at most [`DisplayName::MAX_CHARS`] characters.
#[derive(Debug)]
pub struct DisplayName(String);

impl View for DisplayName {
    type V = Seq<char>;

    closed spec fn view(&self) -> Seq<char> {
        self.0@
    }
}

impl DisplayName {
    /// The largest number of characters that a display name may hold.
    pub const MAX_CHARS: usize = 30;

    #[verifier::type_invariant]
    spec fn within_bound(self) -> bool {
        self.0@.len() <= Self::MAX_CHARS
    }

    /// Whether `raw` is short enough to be a display name.
    pub open spec fn accepts(raw: Seq<char>) -> bool {
        raw.len() <= Self::MAX_CHARS
    }

    /// Wraps `raw`, unchanged, when it has at most `MAX_CHARS` characters,
    /// and refuses it as too long otherwise.
    pub fn new(raw: String) -> (res: Result<DisplayName, DisplayNameError>)
        ensures
            Self::accepts(raw@) ==> res is Ok && res->Ok_0@ == raw@,
            !Self::accepts(raw@) ==> res == Err::<DisplayName, DisplayNameError>(DisplayNameError::TooLong),
    {
        let count: usize = raw.as_str().unicode_len();
        if count > Self::MAX_CHARS {
            Err(DisplayNameError::TooLong)
        } else {
            Ok(DisplayName(raw))
        }
    }

    /// The text, borrowed.
    pub fn as_ref(&self) -> (res: &str)
        ensures
            res@ == self@,
            Self::accepts(res@),
    {
        proof {
            use_type_invariant(self);
        }
        self.0.as_str()
    }

    /// The text, by value.
    pub fn into_inner(self) -> (res: String)
        ensures
            res@ == self@,
            Self::accepts(res@),
    {
        proof {
            use_type_invariant(&self);
        }
        self.0
    }

    /// The number of characters held: never more than `MAX_CHARS`.
    pub fn char_count(&self) -> (res: usize)
        ensures
            res == self@.len(),
            res <= Self::MAX_CHARS,
    {
        proof {
            use_type_invariant(self);
        }
        self.0.as_str().unicode_len()
    }
}

impl Clone for DisplayName {
    fn clone(&self) -> (res: Self)
        ensures
            res == *self,
    {
        proof {
            use_type_invariant(self);
        }
        DisplayName(self.0.clone())
    }
}

impl PartialEq for DisplayName {
    fn eq(&self, other: &Self) -> (res: bool) {
        self.0 == other.0
    }
}

impl PartialEqSpecImpl for DisplayName {
    open spec fn obeys_eq_spec() -> bool {
        true
    }

    open spec fn eq_spec(&self, other: &Self) -> bool {
        self@ == other@
    }
}

impl UserFacingError for DisplayNameError {
    fn formatted_error(&self) -> (res: &'static str)
        ensures
            res@ == "Display name is too long. Must be at most 30 characters."@,
    {
        match self {
            DisplayNameError::TooLong => "Display name is too long. Must be at most 30 characters.",
        }
    }
}


/// Why a [`Handle`] could not be built.
#[derive(Debug, Clone, Copy, PartialEq, Eq, Structural)]
pub enum HandleError {
    /// The text has more than [`Handle::MAX_CHARS`] characters.
    TooLong,
}

/// The unique public name a user is looked up by of at most [`Handle::MAX_CHARS`] characters.
#[derive(Debug)]
pub struct Handle(String);

impl View for Handle {
    type V = Seq<char>;

    closed spec fn view(&self) -> Seq<char> {
        self.0@
    }
}

impl Handle {
    /// The largest number of characters that a handle may hold.
    pub const MAX_CHARS: usize = 30;

    #[verifier::type_invariant]
    spec fn within_bound(self) -> bool {
        self.0@.len() <= Self::MAX_CHARS
    }

    /// Whether `raw` is short enough to be a handle.
    pub open spec fn accepts(raw: Seq<char>) -> bool {
        raw.len() <= Self::MAX_CHARS
    }

    /// Wraps `raw`, unchanged, when it has at most `MAX_CHARS` characters,
    /// and refuses it as too long otherwise.
    pub fn new(raw: String) -> (res: Result<Handle, HandleError>)
        ensures
            Self::accepts(raw@) ==> res is Ok && res->Ok_0@ == raw@,
            !Self::accepts(raw@) ==> res == Err::<Handle, HandleError>(HandleError::TooLong),
    {
        let count: usize = raw.as_str().unicode_len();
        if count > Self::MAX_CHARS {
            Err(HandleError::TooLong)
        } else {
            Ok(Handle(raw))
        }
    }

    /// The text, borrowed.
    pub fn as_ref(&self) -> (res: &str)
        ensures
            res@ == self@,
            Self::accepts(res@),
    {
        proof {
            use_type_invariant(self);
        }
        self.0.as_str()
    }

    /// The text, by value.
    pub fn into_inner(self) -> (res: String)
        ensures
            res@ == self@,
            Self::accepts(res@),
    {
        proof {
            use_type_invariant(&self);
        }
        self.0
    }

    /// The number of characters held: never more than `MAX_CHARS`.
    pub fn char_count(&self) -> (res: usize)
        ensures
            res == self@.len(),
            res <= Self::MAX_CHARS,
    {
        proof {
            use_type_invariant(self);
        }
        self.0.as_str().unicode_len()
    }
}

impl Clone for Handle {
    fn clone(&self) -> (res: Self)
        ensures
            res == *self,
    {
        proof {
            use_type_invariant(self);
        }
        Handle(self.0.clone())
    }
}

impl PartialEq for Handle {
    fn eq(&self, other: &Self) -> (res: bool) {
        self.0 == other.0
    }
}

impl PartialEqSpecImpl for Handle {
    open spec fn obeys_eq_spec() -> bool {
        true
    }

    open spec fn eq_spec(&self, other: &Self) -> bool {
        self@ == other@
    }
}

impl UserFacingError for HandleError {
    fn formatted_error(&self) -> (res: &'static str)
        ensures
            res@ == "Username is too long. Must be at most 30 characters."@,
    {
        match self {
            HandleError::TooLong => "Username is too long. Must be at most 30 characters.",
        }
    }
}

} // verus!
