//! The failure type itself: its four kinds, the label of each kind, the text
//! of each value, and the way in from the two outside kinds of failure.

use crate::hex::lemma_lower_hex_injective;
use crate::hex::lower_hex;
use crate::hex::push_lower_hex;
use crate::text::contains_text;
use crate::text::lemma_tail_occurs;
use scroll::Error as ScrollError;
use vstd::prelude::*;
use vstd::std_specs::convert::FromSpec;
use vstd::std_specs::convert::FromSpecImpl;
use vstd::string::to_string_from_display_ensures;
use vstd::string::StringExecFns;

verus! {

/// What went wrong while a binary container was read.
///
/// The set is closed: a reader reports every failure as one of these four.
/// `Malformed` and `BadMagic` are made by the readers themselves, for what
/// only they can find wrong; `Scroll` and `IO` come into being only through
/// `From`, and hold the outside failure whole.
#[derive(Debug)]
pub enum Error {
    /// The container contradicts itself: a size that passes the end of the
    /// buffer, an offset that points outside. The text says what was found.
    Malformed(String),
    /// The signature was read, and is that of no known format. The number is
    /// the signature as it was read.
    BadMagic(u64),
    /// A field could not be read from the bytes.
    Scroll(ScrollError),
    /// The source of the bytes failed.
    IO(std::io::Error),
}

/// The outcome of every fallible operation of a reader.
pub type Result<T> = core::result::Result<T, Error>;

/// The outside failure that a value of `Error` wraps, borrowed from it.
pub enum Wrapped<'a> {
    /// The one beneath `Error::Scroll`.
    Scroll(&'a ScrollError),
    /// The one beneath `Error::IO`.
    IO(&'a std::io::Error),
}

/// The signature `magic` as the text shows it: `0x` and the lower-case
/// hexadecimal digits.
pub open spec fn magic_notation(magic: u64) -> Seq<char> {
    "0x"@ + lower_hex(magic as nat)
}

/// The text of an unknown signature: what kind of failure it is, and then the
/// signature itself.
pub open spec fn bad_magic_text(magic: u64) -> Seq<char> {
    "Invalid magic number: "@ + magic_notation(magic)
}

/// The text of a contradiction: what kind of failure it is, and then the
/// message as it was given.
pub open spec fn malformed_text(message: Seq<char>) -> Seq<char> {
    "Malformed entity: "@ + message
}

impl Error {
    /// The label of the kind: one fixed text for each of the four variants,
    /// whatever the variant holds.
    pub open spec fn label(&self) -> Seq<char> {
        match self {
            Error::IO(_) => "IO error"@,
            Error::Scroll(_) => "Scroll error"@,
            Error::BadMagic(_) => "Invalid magic number"@,
            Error::Malformed(_) => "Entity is malformed in some way"@,
        }
    }

    /// The text of the value, where `outside` is the text of the failure that
    /// it wraps. A wrapped failure shows through unchanged: the text is
    /// `outside`, with nothing before it and nothing after. The two kinds of
    /// the readers' own wrap nothing, and their text does not depend on
    /// `outside`.
    pub open spec fn rendering(&self, outside: Seq<char>) -> Seq<char> {
        match self {
            Error::IO(_) => outside,
            Error::Scroll(_) => outside,
            Error::BadMagic(magic) => bad_magic_text(*magic),
            Error::Malformed(message) => malformed_text(message@),
        }
    }

    /// Whether the value ends the chain of causes: it is of a kind that wraps
    /// no other failure.
    pub open spec fn is_terminal(&self) -> bool {
        self is Malformed || self is BadMagic
    }

    /// The label of the kind, for logs and for routing.
    pub fn description(&self) -> (label: &'static str)
        ensures
            label@ == self.label(),
    {
        match self {
            Error::IO(_) => "IO error",
            Error::Scroll(_) => "Scroll error",
            Error::BadMagic(_) => "Invalid magic number",
            Error::Malformed(_) => "Entity is malformed in some way",
        }
    }

    /// The outside failure that answers for the cause of this one. The two
    /// kinds that the readers make themselves have no cause and give `None`;
    /// the two that wrap give what they wrap, and the cause of that is theirs.
    pub fn wrapped(&self) -> (inner: Option<Wrapped<'_>>)
        ensures
            self.is_terminal() ==> inner is None,
            self matches Error::IO(failure) ==> inner == Some(Wrapped::IO(failure)),
            self matches Error::Scroll(failure) ==> inner == Some(Wrapped::Scroll(failure)),
    {
        match self {
            Error::IO(failure) => Some(Wrapped::IO(failure)),
            Error::Scroll(failure) => Some(Wrapped::Scroll(failure)),
            Error::BadMagic(_) => None,
            Error::Malformed(_) => None,
        }
    }

    /// The text of the value, given the text that the wrapped failure wrote
    /// for itself. For the two kinds that wrap, `outside` is handed back as
    /// it came; for the two others it is set aside.
    pub fn text_given(&self, outside: String) -> (text: String)
        ensures
            text@ == self.rendering(outside@),
            !self.is_terminal() ==> text == outside,
    {
        match self {
            Error::IO(_) => outside,
            Error::Scroll(_) => outside,
            Error::BadMagic(magic) => {
                let mut text = String::from_str("Invalid magic number: ");
                text.append("0x");
                push_lower_hex(&mut text, *magic);
                assert(text@ =~= bad_magic_text(*magic));
                text
            },
            Error::Malformed(message) => {
                let mut text = String::from_str("Malformed entity: ");
                text.append(message.as_str());
                text
            },
        }
    }

    /// The text of the value, ready to show.
    ///
    /// A wrapped failure is asked for its text through `ToString::to_string`,
    /// and the answer is handed back as it came. What that text says is the
    /// wrapped failure's own affair, and may differ from one platform to the
    /// next, so the contract fixes no text for it: it says that the text is
    /// one that `to_string` gave for this very failure. `to_string` expects
    /// the `Display` impl behind it to succeed; a caller that wants a failing
    /// impl handed on asks the wrapped failure itself and calls
    /// [`Error::text_given`].
    pub fn to_string(&self) -> (text: String)
        ensures
            self matches Error::BadMagic(magic) ==> text@ == bad_magic_text(*magic),
            self matches Error::Malformed(message) ==> text@ == malformed_text(message@),
            self matches Error::IO(failure) ==> to_string_from_display_ensures::<std::io::Error>(
                failure,
                text,
            ),
            self matches Error::Scroll(failure) ==> to_string_from_display_ensures::<ScrollError>(
                failure,
                text,
            ),
    {
        let outside = match self {
            Error::IO(failure) => failure.to_string(),
            Error::Scroll(failure) => failure.to_string(),
            Error::BadMagic(_) => String::new(),
            Error::Malformed(_) => String::new(),
        };
        self.text_given(outside)
    }
}

impl From<ScrollError> for Error {
    /// Lifts a failed read into `Error::Scroll`, whole.
    fn from(failure: ScrollError) -> (lifted: Error) {
        Error::Scroll(failure)
    }
}

impl FromSpecImpl<ScrollError> for Error {
    open spec fn obeys_from_spec() -> bool {
        true
    }

    open spec fn from_spec(failure: ScrollError) -> Error {
        Error::Scroll(failure)
    }
}

impl From<std::io::Error> for Error {
    /// Lifts a failure of the byte source into `Error::IO`, whole.
    fn from(failure: std::io::Error) -> (lifted: Error) {
        Error::IO(failure)
    }
}

impl FromSpecImpl<std::io::Error> for Error {
    open spec fn obeys_from_spec() -> bool {
        true
    }

    open spec fn from_spec(failure: std::io::Error) -> Error {
        Error::IO(failure)
    }
}

impl Error {
    /// Whether two values are of the same variant, whatever they hold.
    pub open spec fn same_kind(&self, other: &Error) -> bool {
        ||| self is IO && other is IO
        ||| self is Scroll && other is Scroll
        ||| self is BadMagic && other is BadMagic
        ||| self is Malformed && other is Malformed
    }

    /// There are four labels and no more, and the label of a value is decided
    /// by its variant alone: two values get the same label if and only if
    /// they are of the same variant.
    pub proof fn lemma_label_names_kind(&self, other: &Error)
        ensures
            self.label() == "IO error"@ || self.label() == "Scroll error"@ || self.label()
                == "Invalid magic number"@ || self.label() == "Entity is malformed in some way"@,
            self.label() == other.label() <==> self.same_kind(other),
    {
        reveal_strlit("IO error");
        reveal_strlit("Scroll error");
        reveal_strlit("Invalid magic number");
        reveal_strlit("Entity is malformed in some way");
        assert("IO error"@.len() == 8);
        assert("Scroll error"@.len() == 12);
        assert("Invalid magic number"@.len() == 20);
        assert("Entity is malformed in some way"@.len() == 31);
    }
}

/// The text of an unknown signature holds the signature in hexadecimal, with
/// `0x` before it, and ends with it.
pub proof fn lemma_bad_magic_shows_value(magic: u64)
    ensures
        contains_text(bad_magic_text(magic), magic_notation(magic)),
        contains_text(bad_magic_text(magic), lower_hex(magic as nat)),
{
    let lead = "Invalid magic number: "@;
    lemma_tail_occurs(lead, magic_notation(magic));
    lemma_tail_occurs(lead + "0x"@, lower_hex(magic as nat));
    assert(lead + "0x"@ + lower_hex(magic as nat) =~= bad_magic_text(magic));
}

/// Two unknown signatures with the same text are the same signature: the
/// text loses nothing of the number.
pub proof fn lemma_bad_magic_text_tells_value(a: u64, b: u64)
    requires
        bad_magic_text(a) == bad_magic_text(b),
    ensures
        a == b,
{
    let lead = "Invalid magic number: "@ + "0x"@;
    let text_a = lead + lower_hex(a as nat);
    let text_b = lead + lower_hex(b as nat);
    assert(text_a =~= bad_magic_text(a));
    assert(text_b =~= bad_magic_text(b));
    assert(text_a.subrange(lead.len() as int, text_a.len() as int) =~= lower_hex(a as nat));
    assert(text_b.subrange(lead.len() as int, text_b.len() as int) =~= lower_hex(b as nat));
    lemma_lower_hex_injective(a as nat, b as nat);
}

/// The text of a contradiction holds the message word for word, and ends
/// with it.
pub proof fn lemma_malformed_shows_message(message: Seq<char>)
    ensures
        contains_text(malformed_text(message), message),
{
    lemma_tail_occurs("Malformed entity: "@, message);
}

/// A failed read that is lifted shows through: the lifted value wraps it
/// whole, and whatever text the failed read wrote for itself is the text of
/// the lifted value.
pub proof fn lemma_scroll_shows_through(failure: ScrollError, outside: Seq<char>)
    ensures
        <Error as FromSpec<ScrollError>>::obeys_from_spec(),
        <Error as FromSpec<ScrollError>>::from_spec(failure) == Error::Scroll(failure),
        <Error as FromSpec<ScrollError>>::from_spec(failure).rendering(outside) == outside,
{
}

/// A failure of the byte source that is lifted shows through in the same
/// way.
pub proof fn lemma_io_shows_through(failure: std::io::Error, outside: Seq<char>)
    ensures
        <Error as FromSpec<std::io::Error>>::obeys_from_spec(),
        <Error as FromSpec<std::io::Error>>::from_spec(failure) == Error::IO(failure),
        <Error as FromSpec<std::io::Error>>::from_spec(failure).rendering(outside) == outside,
{
}

/// The text of the readers' own kinds is theirs alone: no text from outside
/// finds its way into it.
pub proof fn lemma_own_text_ignores_outside(failure: Error, first: Seq<char>, second: Seq<char>)
    requires
        failure.is_terminal(),
    ensures
        failure.rendering(first) == failure.rendering(second),
{
}

} // verus!
