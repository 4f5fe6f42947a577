//! What is exchanged with the language-model service, and how its reply is
//! read.

use vstd::prelude::*;

verus! {

/// One chat message: who speaks and what is said.
#[derive(Debug)]
pub struct Message {
    role: String,
    content: String,
}

/// A chat message as a mathematical value.
pub struct MessageView {
    pub role: Seq<char>,
    pub content: Seq<char>,
}

impl View for Message {
    type V = MessageView;

    closed spec fn view(&self) -> MessageView {
        MessageView { role: self.role@, content: self.content@ }
    }
}

impl Message {
    /// A message of `role` that says `content`.
    pub fn new(role: String, content: String) -> (message: Message)
        ensures
            message@ == (MessageView { role: role@, content: content@ }),
    {
        Message { role, content }
    }

    /// Who speaks.
    pub fn role(&self) -> (role: &String)
        ensures
            role@ == self@.role,
    {
        &self.role
    }

    /// What is said.
    pub fn content(&self) -> (content: &String)
        ensures
            content@ == self@.content,
    {
        &self.content
    }
}

/// The next part of the story: its text and a prompt for its picture.
#[derive(Debug)]
pub struct StoryContinuation {
    text: String,
    image_prompt: String,
}

/// A story part as a mathematical value.
pub struct StoryView {
    pub text: Seq<char>,
    pub image_prompt: Seq<char>,
}

impl View for StoryContinuation {
    type V = StoryView;

    closed spec fn view(&self) -> StoryView {
        StoryView { text: self.text@, image_prompt: self.image_prompt@ }
    }
}

impl StoryContinuation {
    /// A story part.
    pub fn new(text: String, image_prompt: String) -> (story: StoryContinuation)
        ensures
            story@ == (StoryView { text: text@, image_prompt: image_prompt@ }),
    {
        StoryContinuation { text, image_prompt }
    }

    /// The text of the part.
    pub fn text(&self) -> (text: &String)
        ensures
            text@ == self@.text,
    {
        &self.text
    }

    /// The prompt for the picture of the part.
    pub fn image_prompt(&self) -> (image_prompt: &String)
        ensures
            image_prompt@ == self@.image_prompt,
    {
        &self.image_prompt
    }
}

/// Why a reply of the service holds no story part to read.
#[derive(Clone, Copy, Debug, PartialEq, Eq, Structural)]
pub enum CompletionError {
    /// The service answered with a status other than success.
    RequestFailed,
    /// The service answered without a choice.
    NoChoices,
}

impl CompletionError {
    /// The error in words.
    pub fn message(&self) -> (text: String)
        ensures
            text@ == (match *self {
                CompletionError::RequestFailed => "Request Failed"@,
                CompletionError::NoChoices => "No choices returned from the API"@,
            }),
    {
        match self {
            CompletionError::RequestFailed => "Request Failed".to_owned(),
            CompletionError::NoChoices => "No choices returned from the API".to_owned(),
        }
    }
}

/// What of a reply is read: nothing of one that reports failure, else the
/// first choice.
pub open spec fn chosen(success: bool, choices: Seq<MessageView>) -> Result<
    MessageView,
    CompletionError,
> {
    if !success {
        Err(CompletionError::RequestFailed)
    } else if choices.len() == 0 {
        Err(CompletionError::NoChoices)
    } else {
        Ok(choices[0])
    }
}

/// The views of a list of messages.
pub open spec fn message_views(messages: Seq<Message>) -> Seq<MessageView> {
    messages.map_values(|message: Message| message@)
}

/// Picks the message to read from a reply of the service.
pub fn first_choice(success: bool, choices: &Vec<Message>) -> (choice: Result<
    &Message,
    CompletionError,
>)
    ensures
        match choice {
            Ok(message) => chosen(success, message_views(choices@)) == Ok::<
                MessageView,
                CompletionError,
            >(message@),
            Err(error) => chosen(success, message_views(choices@)) == Err::<
                MessageView,
                CompletionError,
            >(error),
        },
{
    if !success {
        Err(CompletionError::RequestFailed)
    } else if choices.len() == 0 {
        Err(CompletionError::NoChoices)
    } else {
        Ok(&choices[0])
    }
}

/// Whether a character is white space: one of the code points that have
/// Unicode's White_Space property.
pub open spec fn white_space(c: char) -> bool {
    let code = c as u32;
    ||| 0x09 <= code <= 0x0D
    ||| code == 0x20
    ||| code == 0x85
    ||| code == 0xA0
    ||| code == 0x1680
    ||| 0x2000 <= code <= 0x200A
    ||| code == 0x2028
    ||| code == 0x2029
    ||| code == 0x202F
    ||| code == 0x205F
    ||| code == 0x3000
}

/// Whether a character is white space.
pub fn is_white_space(c: char) -> (white: bool)
    ensures
        white == white_space(c),
{
    let code = c as u32;
    (0x09 <= code && code <= 0x0D) || code == 0x20 || code == 0x85 || code == 0xA0 || code
        == 0x1680 || (0x2000 <= code && code <= 0x200A) || code == 0x2028 || code == 0x2029
        || code == 0x202F || code == 0x205F || code == 0x3000
}

/// Number of white-space characters a text starts with.
pub open spec fn leading_white_space(text: Seq<char>) -> nat
    decreases text.len(),
{
    if text.len() == 0 || !white_space(text.first()) {
        0
    } else {
        1 + leading_white_space(text.drop_first())
    }
}

/// Number of white-space characters a text ends with.
pub open spec fn trailing_white_space(text: Seq<char>) -> nat
    decreases text.len(),
{
    if text.len() == 0 || !white_space(text.last()) {
        0
    } else {
        1 + trailing_white_space(text.drop_last())
    }
}

/// A text without the white space at its start and at its end.
pub open spec fn trimmed(text: Seq<char>) -> Seq<char> {
    let rest = text.skip(leading_white_space(text) as int);
    rest.take(rest.len() - trailing_white_space(rest))
}

/// The white space a text starts with ends at its first character that is
/// none, or at the end of the text.
pub proof fn lemma_leading_white_space(text: Seq<char>)
    ensures
        leading_white_space(text) <= text.len(),
        forall|i: int| 0 <= i < leading_white_space(text) ==> white_space(#[trigger] text[i]),
        leading_white_space(text) < text.len() ==> !white_space(
            text[leading_white_space(text) as int],
        ),
    decreases text.len(),
{
    if text.len() > 0 && white_space(text.first()) {
        let rest = text.drop_first();
        lemma_leading_white_space(rest);
        assert forall|i: int| 0 <= i < leading_white_space(text) implies white_space(
            #[trigger] text[i],
        ) by {
            if i > 0 {
                assert(text[i] == rest[i - 1]);
            }
        }
        if leading_white_space(text) < text.len() {
            assert(text[leading_white_space(text) as int] == rest[leading_white_space(rest) as int]);
        }
    }
}

/// The white space a text ends with starts after its last character that
/// is none, or at the start of the text.
pub proof fn lemma_trailing_white_space(text: Seq<char>)
    ensures
        trailing_white_space(text) <= text.len(),
        forall|i: int|
            text.len() - trailing_white_space(text) <= i < text.len() ==> white_space(
                #[trigger] text[i],
            ),
        trailing_white_space(text) < text.len() ==> !white_space(
            text[text.len() - trailing_white_space(text) - 1],
        ),
    decreases text.len(),
{
    if text.len() > 0 && white_space(text.last()) {
        let rest = text.drop_last();
        lemma_trailing_white_space(rest);
        assert forall|i: int|
            text.len() - trailing_white_space(text) <= i < text.len() implies white_space(
            #[trigger] text[i],
        ) by {
            if i < text.len() - 1 {
                assert(text[i] == rest[i]);
            }
        }
        if trailing_white_space(text) < text.len() {
            assert(text[text.len() - trailing_white_space(text) - 1] == rest[rest.len()
                - trailing_white_space(rest) - 1]);
        }
    }
}

/// A trimmed text is one stretch of the text: all that is cut before it and
/// after it is white space, and what is kept, if anything, neither starts
/// nor ends with white space.
pub proof fn lemma_trimmed_cuts_white_space_only(text: Seq<char>)
    ensures
        ({
            let from = leading_white_space(text) as int;
            let to = from + trimmed(text).len();
            &&& 0 <= from <= to <= text.len()
            &&& trimmed(text) == text.subrange(from, to)
            &&& forall|i: int| 0 <= i < from ==> white_space(#[trigger] text[i])
            &&& forall|i: int| to <= i < text.len() ==> white_space(#[trigger] text[i])
            &&& trimmed(text).len() > 0 ==> !white_space(trimmed(text).first()) && !white_space(
                trimmed(text).last(),
            )
        }),
{
    let from = leading_white_space(text) as int;
    lemma_leading_white_space(text);
    let rest = text.skip(from);
    lemma_trailing_white_space(rest);
    let kept = rest.len() - trailing_white_space(rest);
    let to = from + kept;
    assert(trimmed(text) =~= text.subrange(from, to));
    assert forall|i: int| to <= i < text.len() implies white_space(#[trigger] text[i]) by {
        assert(text[i] == rest[i - from]);
    }
    if trimmed(text).len() > 0 {
        assert(trimmed(text).first() == text[from]);
        assert(rest.len() > 0);
        assert(!white_space(rest[0]));
        assert(trailing_white_space(rest) < rest.len());
        assert(trimmed(text).last() == rest[kept - 1]);
    }
}

/// `str::trim`, with the slice it returns copied into a `String`. std cuts
/// from both ends of the text every character for which
/// `char::is_whitespace` holds, that is every character with Unicode's
/// White_Space property, and keeps the rest as it is.
#[verifier::external_body]
fn trim_text(text: &str) -> (kept: String)
    ensures
        kept@ == trimmed(text@),
{
    text.trim().to_owned()
}

/// The text of a reply in which the story part is to be found: the content
/// of the first choice, trimmed.
pub fn completion_content(success: bool, choices: &Vec<Message>) -> (content: Result<
    String,
    CompletionError,
>)
    ensures
        match content {
            Ok(text) => chosen(success, message_views(choices@)) matches Ok(message) && text@
                == trimmed(message.content),
            Err(error) => chosen(success, message_views(choices@)) == Err::<
                MessageView,
                CompletionError,
            >(error),
        },
{
    match first_choice(success, choices) {
        Ok(message) => Ok(trim_text(message.content().as_str())),
        Err(error) => Err(error),
    }
}

} // verus!
