use vstd::prelude::*;

use crate::error::TypeError;
use crate::template::{placeholder, replace_all, replace_placeholder, vars_of_texts, variables_of_texts};
use crate::text::{clone_opt_str, concat};
use crate::workflow::tasklist::sv;

verus! {

/// A file given to the model.
#[derive(Debug, Clone, PartialEq)]
pub struct File {
    pub file_data: Option<String>,
    pub file_id: Option<String>,
    pub filename: Option<String>,
}

impl File {
    /// A file of the given values.
    pub fn new(file_data: Option<String>, file_id: Option<String>, filename: Option<String>) -> (r: File)
        ensures
            r == (File { file_data, file_id, filename }),
    {
        File { file_data, file_id, filename }
    }
}

/// A part of a message that holds a file.
#[derive(Debug, Clone, PartialEq)]
pub struct FileContentPart {
    pub file: File,
    pub kind: String,
}

impl FileContentPart {
    /// A file part of the given values.
    pub fn new(file_data: Option<String>, file_id: Option<String>, filename: Option<String>) -> (r: Self)
        ensures
            r.file == (File { file_data, file_id, filename }) && r.kind@ == "file"@,
    {
        FileContentPart { file: File { file_data, file_id, filename }, kind: "file".to_owned() }
    }
}

/// Audio given to the model.
#[derive(Debug, Clone, PartialEq)]
pub struct InputAudioData {
    pub data: String,
    pub format: String,
}

impl InputAudioData {
    /// Audio `data` in `format`.
    pub fn new(data: String, format: String) -> (r: InputAudioData)
        ensures
            r == (InputAudioData { data, format }),
    {
        InputAudioData { data, format }
    }
}

/// A part of a message that holds audio.
#[derive(Debug, Clone, PartialEq)]
pub struct InputAudioContentPart {
    pub input_audio: InputAudioData,
    pub kind: String,
}

impl InputAudioContentPart {
    /// An audio part of `data` in `format`.
    pub fn new(data: String, format: String) -> (r: Self)
        ensures
            r.input_audio == (InputAudioData { data, format }) && r.kind@ == "input_audio"@,
    {
        InputAudioContentPart { input_audio: InputAudioData { data, format }, kind: "input_audio".to_owned() }
    }
}

/// The URL of an image, with the detail at which the model should look at it.
#[derive(Debug, Clone, PartialEq)]
pub struct ImageUrl {
    pub url: String,
    pub detail: Option<String>,
}

impl ImageUrl {
    /// The image at `url`, seen at `detail`.
    pub fn new(url: String, detail: Option<String>) -> (r: ImageUrl)
        ensures
            r == (ImageUrl { url, detail }),
    {
        ImageUrl { url, detail }
    }
}

/// A part of a message that holds an image.
#[derive(Debug, Clone, PartialEq)]
pub struct ImageContentPart {
    pub image_url: ImageUrl,
    pub kind: String,
}

impl ImageContentPart {
    /// An image part of the image at `url`.
    pub fn new(url: String, detail: Option<String>) -> (r: Self)
        ensures
            r.image_url == (ImageUrl { url, detail }) && r.kind@ == "image_url"@,
    {
        ImageContentPart { image_url: ImageUrl { url, detail }, kind: "image_url".to_owned() }
    }
}

/// A part of a message that holds text.
#[derive(Debug, Clone, PartialEq)]
pub struct TextContentPart {
    pub text: String,
    pub kind: String,
}

impl TextContentPart {
    /// A text part of `text`.
    pub fn new(text: String) -> (r: Self)
        ensures
            r.text == text && r.kind@ == "text"@,
    {
        TextContentPart { text, kind: "text".to_owned() }
    }
}

/// A part of a message.
#[derive(Debug, Clone, PartialEq)]
pub enum ContentPart {
    Text(TextContentPart),
    ImageUrl(ImageContentPart),
    InputAudio(InputAudioContentPart),
    FileContent(FileContentPart),
}

impl ContentPart {
    /// A copy of this part.
    pub fn duplicate(&self) -> (r: Self)
        ensures
            r == *self,
    {
        match self {
            ContentPart::Text(p) => ContentPart::Text(TextContentPart { text: p.text.clone(), kind: p.kind.clone() }),
            ContentPart::ImageUrl(p) => ContentPart::ImageUrl(
                ImageContentPart {
                    image_url: ImageUrl { url: p.image_url.url.clone(), detail: clone_opt_str(&p.image_url.detail) },
                    kind: p.kind.clone(),
                },
            ),
            ContentPart::InputAudio(p) => ContentPart::InputAudio(
                InputAudioContentPart {
                    input_audio: InputAudioData {
                        data: p.input_audio.data.clone(),
                        format: p.input_audio.format.clone(),
                    },
                    kind: p.kind.clone(),
                },
            ),
            ContentPart::FileContent(p) => ContentPart::FileContent(
                FileContentPart {
                    file: File {
                        file_data: clone_opt_str(&p.file.file_data),
                        file_id: clone_opt_str(&p.file.file_id),
                        filename: clone_opt_str(&p.file.filename),
                    },
                    kind: p.kind.clone(),
                },
            ),
        }
    }
}

/// One item of a list given as the content of a message: text, a part, or a
/// value of another type, known by its type's name.
#[derive(Debug, Clone, PartialEq)]
pub enum ContentItem {
    Text(String),
    Part(ContentPart),
    Other(String),
}

/// What is given as the content of a message: text, a list of items, a single
/// part, or a value of another type, known by its type's name.
#[derive(Debug, Clone, PartialEq)]
pub enum ContentInput {
    Text(String),
    List(Vec<ContentItem>),
    Part(ContentPart),
    Other(String),
}

/// `p` is the part that the list item `item` gives.
pub open spec fn item_part(item: ContentItem, p: ContentPart) -> bool {
    match item {
        ContentItem::Text(s) => p matches ContentPart::Text(t) && t.text == s && t.kind@ == "text"@,
        ContentItem::Part(q) => !(q is Text) && p == q,
        ContentItem::Other(_) => false,
    }
}

/// The list item is refused: a value of another type, or a text part given as
/// an object (a list takes text as plain strings).
pub open spec fn item_refused(item: ContentItem) -> bool {
    item is Other || (item matches ContentItem::Part(q) && q is Text)
}

/// The name of the type of a refused list item.
pub open spec fn refused_type_name(item: ContentItem) -> Seq<char> {
    match item {
        ContentItem::Other(n) => n@,
        _ => "TextContentPart"@,
    }
}

/// The index of the first refused item, or the length when none is.
pub open spec fn first_refused(items: Seq<ContentItem>) -> int
    decreases items.len(),
{
    if items.len() == 0 {
        0
    } else if item_refused(items[0]) {
        0
    } else {
        1 + first_refused(items.drop_first())
    }
}

proof fn lemma_first_refused(items: Seq<ContentItem>, i: int)
    requires
        0 <= i <= items.len(),
        forall|j: int| 0 <= j < i ==> !item_refused(#[trigger] items[j]),
    ensures
        first_refused(items) >= i,
        i < items.len() && item_refused(items[i]) ==> first_refused(items) == i,
        first_refused(items) <= items.len(),
    decreases i,
{
    if items.len() > 0 && i > 0 {
        let rest = items.drop_first();
        assert forall|j: int| 0 <= j < i - 1 implies !item_refused(#[trigger] rest[j]) by {
            assert(rest[j] == items[j + 1]);
        }
        lemma_first_refused(rest, i - 1);
    } else if items.len() > 0 {
        lemma_first_refused_le(items);
    }
}

proof fn lemma_first_refused_le(items: Seq<ContentItem>)
    ensures
        0 <= first_refused(items) <= items.len(),
    decreases items.len(),
{
    if items.len() > 0 {
        lemma_first_refused_le(items.drop_first());
    }
}

/// The parts of a message's content: a text gives one text part, and a list
/// gives one part for each item, failing at the first item that is not text
/// or a part other than a text part.
pub fn content_parts_from_input(content: ContentInput) -> (r: Result<Vec<ContentPart>, TypeError>)
    ensures
        match content {
            ContentInput::Text(s) => r matches Ok(v) && v@.len() == 1 && (v@[0] matches ContentPart::Text(t) && t.text == s && t.kind@ == "text"@),
            ContentInput::List(items) => {
                let k = first_refused(items@);
                if k < items@.len() {
                    r matches Err(TypeError::Error(m)) && m@ == "Invalid content part type: "@ + refused_type_name(items@[k])
                } else {
                    r matches Ok(v) && v@.len() == items@.len() && forall|i: int| 0 <= i < items@.len() ==> item_part(#[trigger] items@[i], v@[i])
                }
            },
            _ => r matches Err(TypeError::Error(m)) && m@ == "Content must be a string or a list of content parts"@,
        },
{
    match content {
        ContentInput::Text(s) => {
            let mut v: Vec<ContentPart> = Vec::new();
            v.push(ContentPart::Text(TextContentPart::new(s)));
            Ok(v)
        },
        ContentInput::List(items) => {
            let ghost iv = items@;
            let mut parts: Vec<ContentPart> = Vec::new();
            let mut i: usize = 0;
            while i < items.len()
                invariant
                    iv == items@,
                    content matches ContentInput::List(it) && it@ == iv,
                    i <= iv.len(),
                    parts@.len() == i,
                    forall|j: int| 0 <= j < i ==> !item_refused(#[trigger] iv[j]),
                    forall|j: int| 0 <= j < i ==> item_part(#[trigger] iv[j], parts@[j]),
                decreases iv.len() - i,
            {
                match &items[i] {
                    ContentItem::Text(s) => {
                        parts.push(ContentPart::Text(TextContentPart::new(s.clone())));
                    },
                    ContentItem::Part(p) => {
                        match p {
                            ContentPart::Text(_) => {
                                proof {
                                    lemma_first_refused(iv, i as int);
                                }
                                return Err(TypeError::Error(concat("Invalid content part type: ", "TextContentPart")));
                            },
                            _ => {
                                parts.push(p.duplicate());
                            },
                        }
                    },
                    ContentItem::Other(name) => {
                        proof {
                            lemma_first_refused(iv, i as int);
                        }
                        return Err(TypeError::Error(concat("Invalid content part type: ", name.as_str())));
                    },
                }
                i = i + 1;
            }
            proof {
                lemma_first_refused(iv, i as int);
            }
            Ok(parts)
        },
        _ => Err(TypeError::Error("Content must be a string or a list of content parts".to_owned())),
    }
}

/// A message of a conversation with an OpenAI model.
#[derive(Debug, Clone, PartialEq)]
pub struct ChatMessage {
    pub role: String,
    pub content: Vec<ContentPart>,
    pub name: Option<String>,
}

/// `b` is the part `a` with `${name}` replaced by `value` in its text.
pub open spec fn bound_part(a: ContentPart, b: ContentPart, name: Seq<char>, value: Seq<char>) -> bool {
    match a {
        ContentPart::Text(t) => b matches ContentPart::Text(u) && u.text@ == replace_all(t.text@, placeholder(name), value)
            && u.kind == t.kind,
        _ => b == a,
    }
}

/// `b` is the message `a` with `${name}` bound to `value` in its text parts.
pub open spec fn bound_chat_message(a: ChatMessage, b: ChatMessage, name: Seq<char>, value: Seq<char>) -> bool {
    a.role == b.role && a.name == b.name && a.content@.len() == b.content@.len() && forall|i: int|
        0 <= i < a.content@.len() ==> bound_part(#[trigger] a.content@[i], b.content@[i], name, value)
}

/// The texts of the text parts among `parts`, in order.
pub open spec fn part_texts(parts: Seq<ContentPart>) -> Seq<Seq<char>>
    decreases parts.len(),
{
    if parts.len() == 0 {
        Seq::empty()
    } else {
        let rest = part_texts(parts.drop_last());
        match parts.last() {
            ContentPart::Text(t) => rest.push(t.text@),
            _ => rest,
        }
    }
}

impl ChatMessage {
    /// A message made from its content: a text gives one text part, a list
    /// gives its parts as `content_parts_from_input` does, and a single part is
    /// kept as it is; any other value is refused.
    pub fn new(role: String, content: ContentInput, name: Option<String>) -> (r: Result<Self, TypeError>)
        ensures
            match content {
                ContentInput::Text(s) => r matches Ok(m) && m.role == role && m.name == name && m.content@.len() == 1
                    && (m.content@[0] matches ContentPart::Text(t) && t.text == s && t.kind@ == "text"@),
                ContentInput::List(items) => {
                    let k = first_refused(items@);
                    if k < items@.len() {
                        r matches Err(TypeError::Error(m)) && m@ == "Invalid content part type: "@ + refused_type_name(items@[k])
                    } else {
                        r matches Ok(m) && m.role == role && m.name == name && m.content@.len() == items@.len()
                            && forall|i: int| 0 <= i < items@.len() ==> item_part(#[trigger] items@[i], m.content@[i])
                    }
                },
                ContentInput::Part(p) => r matches Ok(m) && m.role == role && m.name == name && m.content@ == seq![p],
                ContentInput::Other(t) => r matches Err(TypeError::Error(m))
                    && m@ == "Content must be a string, list, or ContentPart type. Got: "@ + t@,
            },
    {
        let parts = match content {
            ContentInput::Text(s) => {
                let mut v: Vec<ContentPart> = Vec::new();
                v.push(ContentPart::Text(TextContentPart::new(s)));
                v
            },
            ContentInput::List(items) => {
                match content_parts_from_input(ContentInput::List(items)) {
                    Ok(v) => v,
                    Err(e) => {
                        return Err(e);
                    },
                }
            },
            ContentInput::Part(p) => {
                let mut v: Vec<ContentPart> = Vec::new();
                v.push(p);
                v
            },
            ContentInput::Other(t) => {
                return Err(
                    TypeError::Error(concat("Content must be a string, list, or ContentPart type. Got: ", t.as_str())),
                );
            },
        };
        Ok(ChatMessage { role, content: parts, name })
    }

    /// A message of one text part.
    pub fn from_text(content: String, role: &str) -> (r: Result<Self, TypeError>)
        ensures
            r matches Ok(m) && m.role@ == role@ && m.name is None && m.content@.len() == 1 && (m.content@[0] matches ContentPart::Text(t)
                && t.text == content && t.kind@ == "text"@),
    {
        let mut v: Vec<ContentPart> = Vec::new();
        v.push(ContentPart::Text(TextContentPart::new(content)));
        Ok(ChatMessage { role: role.to_owned(), content: v, name: None })
    }

    /// A copy of this message.
    pub fn duplicate(&self) -> (r: Self)
        ensures
            r.role == self.role && r.name == self.name && r.content@ == self.content@,
    {
        let mut content: Vec<ContentPart> = Vec::new();
        let mut i: usize = 0;
        while i < self.content.len()
            invariant
                i <= self.content@.len(),
                content@ == self.content@.take(i as int),
            decreases self.content@.len() - i,
        {
            content.push(self.content[i].duplicate());
            proof {
                assert(self.content@.take(i + 1) =~= self.content@.take(i as int).push(self.content@[i as int]));
            }
            i = i + 1;
        }
        proof {
            assert(self.content@.take(i as int) =~= self.content@);
        }
        ChatMessage { role: self.role.clone(), content, name: clone_opt_str(&self.name) }
    }

    /// Replaces `${name}` with `value` in the text parts.
    pub fn bind_mut(&mut self, name: &str, value: &str) -> (r: Result<(), TypeError>)
        ensures
            r is Ok,
            bound_chat_message(*old(self), *final(self), name@, value@),
    {
        let mut i: usize = 0;
        while i < self.content.len()
            invariant
                i <= self.content@.len(),
                self.content@.len() == old(self).content@.len(),
                self.role == old(self).role,
                self.name == old(self).name,
                forall|k: int| 0 <= k < i ==> bound_part(#[trigger] old(self).content@[k], self.content@[k], name@, value@),
                forall|k: int| i <= k < self.content@.len() ==> #[trigger] self.content@[k] == old(self).content@[k],
            decreases self.content@.len() - i,
        {
            let replaced = match &self.content[i] {
                ContentPart::Text(t) => Some(
                    TextContentPart { text: replace_placeholder(t.text.as_str(), name, value), kind: t.kind.clone() },
                ),
                _ => None,
            };
            match replaced {
                Some(t) => {
                    self.content.set(i, ContentPart::Text(t));
                },
                None => {},
            }
            i = i + 1;
        }
        Ok(())
    }

    /// A copy of this message with `${name}` replaced by `value` in its text parts.
    pub fn bind(&self, name: &str, value: &str) -> (r: Result<Self, TypeError>)
        ensures
            r matches Ok(m) && bound_chat_message(*self, m, name@, value@),
    {
        let mut m = self.duplicate();
        let _ = m.bind_mut(name, value);
        Ok(m)
    }

    /// The texts of the text parts, in order.
    pub fn texts(&self) -> (r: Vec<String>)
        ensures
            sv(r@) == part_texts(self.content@),
    {
        let mut out: Vec<String> = Vec::new();
        let mut i: usize = 0;
        while i < self.content.len()
            invariant
                i <= self.content@.len(),
                sv(out@) == part_texts(self.content@.take(i as int)),
            decreases self.content@.len() - i,
        {
            proof {
                assert(self.content@.take(i + 1).drop_last() =~= self.content@.take(i as int));
            }
            match &self.content[i] {
                ContentPart::Text(t) => {
                    let ghost o = out@;
                    out.push(t.text.clone());
                    proof {
                        assert(sv(out@) =~= sv(o).push(t.text@));
                    }
                },
                _ => {},
            }
            i = i + 1;
        }
        proof {
            assert(self.content@.take(i as int) =~= self.content@);
        }
        out
    }

    /// The distinct names of the variables `${name}` in the text parts.
    pub fn extract_variables(&self) -> (r: Vec<String>)
        ensures
            sv(r@).no_duplicates(),
            forall|x: Seq<char>| #[trigger] sv(r@).contains(x) <==> vars_of_texts(part_texts(self.content@)).contains(x),
    {
        let t = self.texts();
        variables_of_texts(&t)
    }
}

} // verus!
