//! Text documents: their decoding, their line endings, and the results
//! of the operations on them.

use vstd::prelude::*;
use crate::release::optional_text;
use crate::text::{chars_of, join2, push_char, same_text};

verus! {

/// A way to end a line.
#[derive(Clone, Copy, Debug, PartialEq, Eq, Structural)]
pub enum LineEnding {
    /// Carriage return, then line feed.
    Crlf,
    /// Line feed.
    Lf,
    /// Carriage return.
    Cr,
}

impl LineEnding {
    /// The name of the line ending.
    pub open spec fn spec_name(self) -> Seq<char> {
        match self {
            LineEnding::Crlf => "CRLF"@,
            LineEnding::Lf => "LF"@,
            LineEnding::Cr => "CR"@,
        }
    }

    /// The characters of the line ending.
    pub open spec fn sequence(self) -> Seq<char> {
        match self {
            LineEnding::Crlf => seq!['\r', '\n'],
            LineEnding::Lf => seq!['\n'],
            LineEnding::Cr => seq!['\r'],
        }
    }

    /// The line ending of this name, if the name is one of `CRLF`, `LF`
    /// and `CR`.
    pub open spec fn spec_named(name: Seq<char>) -> Option<LineEnding> {
        if name == "CRLF"@ {
            Some(LineEnding::Crlf)
        } else if name == "CR"@ {
            Some(LineEnding::Cr)
        } else if name == "LF"@ {
            Some(LineEnding::Lf)
        } else {
            None
        }
    }

    /// The name of the line ending: `CRLF`, `LF` or `CR`.
    pub fn name(&self) -> (s: &'static str)
        ensures
            s@ == self.spec_name(),
    {
        match self {
            LineEnding::Crlf => "CRLF",
            LineEnding::Lf => "LF",
            LineEnding::Cr => "CR",
        }
    }

    /// The line ending of this name; `None` unless the name is exactly
    /// `CRLF`, `LF` or `CR`.
    pub fn named(name: &str) -> (e: Option<LineEnding>)
        ensures
            e == LineEnding::spec_named(name@),
    {
        if same_text(name, "CRLF") {
            Some(LineEnding::Crlf)
        } else if same_text(name, "CR") {
            Some(LineEnding::Cr)
        } else if same_text(name, "LF") {
            Some(LineEnding::Lf)
        } else {
            None
        }
    }
}

/// How often `c` occurs in `s`.
pub open spec fn count_char(s: Seq<char>, c: char) -> nat
    decreases s.len(),
{
    if s.len() == 0 {
        0
    } else {
        count_char(s.drop_last(), c) + if s.last() == c {
            1nat
        } else {
            0nat
        }
    }
}

/// How often a carriage return is directly followed by a line feed in
/// `s`.
pub open spec fn count_crlf(s: Seq<char>) -> nat
    decreases s.len(),
{
    if s.len() < 2 {
        0
    } else {
        count_crlf(s.drop_last()) + if s[s.len() - 2] == '\r' && s.last() == '\n' {
            1nat
        } else {
            0nat
        }
    }
}

/// The number of line feeds of `s` that no carriage return precedes.
pub open spec fn lone_lf(s: Seq<char>) -> int {
    count_char(s, '\n') - count_crlf(s)
}

/// The number of carriage returns of `s` that no line feed follows.
pub open spec fn lone_cr(s: Seq<char>) -> int {
    count_char(s, '\r') - count_crlf(s)
}

/// The line ending that `s` uses most: `Crlf` when there is a pair and
/// there are no more lone line feeds and no more lone carriage returns
/// than pairs; else `Cr` when there is a lone carriage return and there
/// are no more lone line feeds than lone carriage returns; else `Lf`,
/// also for a text without line endings.
pub open spec fn dominant_line_ending(s: Seq<char>) -> LineEnding {
    let crlf = count_crlf(s) as int;
    if crlf > 0 && crlf >= lone_lf(s) && crlf >= lone_cr(s) {
        LineEnding::Crlf
    } else if lone_cr(s) > 0 && lone_cr(s) >= lone_lf(s) {
        LineEnding::Cr
    } else {
        LineEnding::Lf
    }
}

/// `s` with every line break, be it a carriage return with a line feed
/// behind it, a carriage return alone or a line feed alone, replaced by
/// the characters of `ending`.
pub open spec fn with_line_ending(s: Seq<char>, ending: LineEnding) -> Seq<char>
    decreases s.len(),
{
    if s.len() == 0 {
        Seq::<char>::empty()
    } else if s[0] == '\r' && s.len() > 1 && s[1] == '\n' {
        ending.sequence() + with_line_ending(s.skip(2), ending)
    } else if s[0] == '\r' || s[0] == '\n' {
        ending.sequence() + with_line_ending(s.skip(1), ending)
    } else {
        seq![s[0]] + with_line_ending(s.skip(1), ending)
    }
}

proof fn lemma_counts_bounded(s: Seq<char>)
    ensures
        count_crlf(s) <= count_char(s, '\n') <= s.len(),
        count_crlf(s) <= count_char(s, '\r') <= s.len(),
        s.len() > 0 && s.last() == '\r' ==> count_crlf(s) < count_char(s, '\r'),
    decreases s.len(),
{
    if s.len() > 0 {
        lemma_counts_bounded(s.drop_last());
        if s.len() >= 2 {
            assert(s.drop_last().last() == s[s.len() - 2]);
        }
    }
}

/// Finds the line ending that a text uses most.
pub fn dominant_ending(content: &str) -> (ending: LineEnding)
    ensures
        ending == dominant_line_ending(content@),
{
    let chars = chars_of(content);
    let mut crlf: usize = 0;
    let mut lf: usize = 0;
    let mut cr: usize = 0;
    let mut i: usize = 0;
    proof {
        assert(chars@.take(0) =~= Seq::<char>::empty());
    }
    while i < chars.len()
        invariant
            i <= chars.len(),
            chars@ == content@,
            crlf == count_crlf(chars@.take(i as int)),
            lf == count_char(chars@.take(i as int), '\n'),
            cr == count_char(chars@.take(i as int), '\r'),
        decreases chars.len() - i,
    {
        let c: char = chars[i];
        proof {
            let now = chars@.take(i + 1);
            assert(now.drop_last() =~= chars@.take(i as int));
            assert(now.last() == c);
            if i > 0 {
                assert(now[now.len() - 2] == chars@[i - 1]);
            }
            lemma_counts_bounded(chars@.take(i as int));
            lemma_counts_bounded(now);
        }
        if c == '\n' {
            lf += 1;
            if i > 0 && chars[i - 1] == '\r' {
                crlf += 1;
            }
        } else if c == '\r' {
            cr += 1;
        }
        i += 1;
    }
    proof {
        assert(chars@.take(chars.len() as int) =~= chars@);
        lemma_counts_bounded(chars@);
    }
    let lone_lfs: usize = lf - crlf;
    let lone_crs: usize = cr - crlf;
    if crlf > 0 && crlf >= lone_lfs && crlf >= lone_crs {
        LineEnding::Crlf
    } else if lone_crs > 0 && lone_crs >= lone_lfs {
        LineEnding::Cr
    } else {
        LineEnding::Lf
    }
}

/// Names the line ending that a text uses most: `CRLF`, `CR` or `LF`,
/// and `LF` for a text without line endings.
pub fn detect_line_ending(content: &str) -> (name: String)
    ensures
        name@ == dominant_line_ending(content@).spec_name(),
{
    String::from_str(dominant_ending(content).name())
}

/// Rewrites a text so that every line ends in `ending`.
pub fn convert_line_endings(content: &str, ending: LineEnding) -> (text: String)
    ensures
        text@ == with_line_ending(content@, ending),
{
    let chars = chars_of(content);
    let mut text = String::new();
    let mut i: usize = 0;
    proof {
        assert(chars@.skip(0) =~= chars@);
    }
    while i < chars.len()
        invariant
            i <= chars.len(),
            chars@ == content@,
            text@ + with_line_ending(chars@.skip(i as int), ending) == with_line_ending(
                chars@,
                ending,
            ),
        decreases chars.len() - i,
    {
        let c: char = chars[i];
        let ghost rest = chars@.skip(i as int);
        let ghost before = text@;
        proof {
            assert(rest[0] == c);
            assert(rest.skip(1) =~= chars@.skip(i + 1));
            if i + 1 < chars.len() {
                assert(rest[1] == chars@[i + 1]);
                assert(rest.skip(2) =~= chars@.skip(i + 2));
            }
        }
        if c == '\r' || c == '\n' {
            let pair: bool = c == '\r' && i + 1 < chars.len() && chars[i + 1] == '\n';
            match ending {
                LineEnding::Crlf => {
                    push_char(&mut text, '\r');
                    push_char(&mut text, '\n');
                },
                LineEnding::Lf => {
                    push_char(&mut text, '\n');
                },
                LineEnding::Cr => {
                    push_char(&mut text, '\r');
                },
            }
            proof {
                assert(text@ =~= before + ending.sequence());
            }
            if pair {
                proof {
                    assert(text@ + with_line_ending(rest.skip(2), ending) =~= before
                        + with_line_ending(rest, ending));
                }
                i += 2;
            } else {
                proof {
                    assert(text@ + with_line_ending(rest.skip(1), ending) =~= before
                        + with_line_ending(rest, ending));
                }
                i += 1;
            }
        } else {
            push_char(&mut text, c);
            proof {
                assert(text@ =~= before + seq![c]);
                assert(text@ + with_line_ending(rest.skip(1), ending) =~= before
                    + with_line_ending(rest, ending));
            }
            i += 1;
        }
    }
    proof {
        assert(chars@.skip(chars.len() as int) =~= Seq::<char>::empty());
        assert(text@ + Seq::<char>::empty() =~= text@);
    }
    text
}

/// The text that the bytes of a file stand for: the bytes are read as
/// UTF-8, or as UTF-16 where they begin with a byte order mark of it;
/// the mark is left out, and what is malformed is replaced.
pub uninterp spec fn decoded_text(bytes: Seq<u8>) -> Seq<char>;

/// That many bytes can be decoded: the largest text they can stand for
/// fits in `usize`.
pub open spec fn decodable(len: nat) -> bool {
    len <= usize::MAX / 4
}

/// Decodes the bytes of a file.
///
/// Trusted: this is `Encoding::decode` of the crate `encoding_rs`,
/// called on its encoding `UTF_8`, of whose result the text is kept. It
/// decodes with byte order mark sniffing and with replacement of
/// malformed sequences, and it panics when the size of its buffer, at
/// most three times the number of bytes and a few more, overflows
/// `usize`, which the precondition rules out.
#[verifier::external_body]
fn decode_bytes(bytes: &[u8]) -> (text: String)
    requires
        decodable(bytes@.len()),
    ensures
        text@ == decoded_text(bytes@),
{
    encoding_rs::UTF_8.decode(bytes).0.into_owned()
}

/// The name of the encoding that documents are read and written in.
pub const DOCUMENT_ENCODING: &'static str = "UTF-8";

/// Decodes the bytes of a file to text; `None` when the bytes are too
/// many to be decoded.
pub fn decode_text(bytes: &[u8]) -> (text: Option<String>)
    ensures
        decodable(bytes@.len()) ==> optional_text(text) == Some(decoded_text(bytes@)),
        !decodable(bytes@.len()) ==> text is None,
{
    if bytes.len() <= usize::MAX / 4 {
        Some(decode_bytes(bytes))
    } else {
        None
    }
}

/// What an operation on a document came to.
#[derive(Clone, Debug, PartialEq, Eq)]
pub struct FileOperationResult {
    pub success: bool,
    pub message: String,
    pub content: Option<String>,
    pub file_path: Option<String>,
    pub file_name: Option<String>,
    pub encoding: Option<String>,
    pub line_ending: Option<String>,
}

/// The mathematical content of a [`FileOperationResult`].
pub struct FileOperationResultView {
    pub success: bool,
    pub message: Seq<char>,
    pub content: Option<Seq<char>>,
    pub file_path: Option<Seq<char>>,
    pub file_name: Option<Seq<char>>,
    pub encoding: Option<Seq<char>>,
    pub line_ending: Option<Seq<char>>,
}

impl View for FileOperationResult {
    type V = FileOperationResultView;

    open spec fn view(&self) -> FileOperationResultView {
        FileOperationResultView {
            success: self.success,
            message: self.message@,
            content: optional_text(self.content),
            file_path: optional_text(self.file_path),
            file_name: optional_text(self.file_name),
            encoding: optional_text(self.encoding),
            line_ending: optional_text(self.line_ending),
        }
    }
}

/// The result of an operation that failed with `message`.
pub open spec fn failed_operation(message: Seq<char>) -> FileOperationResultView {
    FileOperationResultView {
        success: false,
        message,
        content: None,
        file_path: None,
        file_name: None,
        encoding: None,
        line_ending: None,
    }
}

/// The file name to show: the one given, or a placeholder.
pub open spec fn shown_name(file_name: Option<Seq<char>>) -> Seq<char> {
    match file_name {
        Some(n) => n,
        None => "未知文件"@,
    }
}

/// The file name to show: the one given, or a placeholder where the
/// path has none that can be shown.
pub fn file_name_or_unknown(file_name: Option<String>) -> (name: String)
    ensures
        name@ == shown_name(optional_text(file_name)),
{
    match file_name {
        Some(n) => n,
        None => String::from_str("未知文件"),
    }
}

impl FileOperationResult {
    /// The result of an operation that failed: the message reads
    /// `context` followed by `reason`.
    pub fn failure(context: &str, reason: &str) -> (r: FileOperationResult)
        ensures
            r@ == failed_operation(context@ + reason@),
    {
        FileOperationResult {
            success: false,
            message: join2(context, reason),
            content: None,
            file_path: None,
            file_name: None,
            encoding: None,
            line_ending: None,
        }
    }

    /// The result of a document that was read: its text, its place, the
    /// encoding it was read in and the line ending it uses most.
    pub fn opened(file_path: String, file_name: Option<String>, content: String) -> (r:
        FileOperationResult)
        ensures
            r@ == (FileOperationResultView {
                success: true,
                message: "文件读取成功"@,
                content: Some(content@),
                file_path: Some(file_path@),
                file_name: optional_text(file_name),
                encoding: Some(DOCUMENT_ENCODING@),
                line_ending: Some(dominant_line_ending(content@).spec_name()),
            }),
    {
        let line_ending = detect_line_ending(content.as_str());
        FileOperationResult {
            success: true,
            message: String::from_str("文件读取成功"),
            content: Some(content),
            file_path: Some(file_path),
            file_name,
            encoding: Some(String::from_str(DOCUMENT_ENCODING)),
            line_ending: Some(line_ending),
        }
    }

    /// The result of a document that was saved as `content` in
    /// `encoding`: its place, the encoding, and the line ending that the
    /// text uses most.
    pub fn saved(file_path: String, file_name: Option<String>, encoding: String, content: &str) -> (r:
        FileOperationResult)
        ensures
            r@ == (FileOperationResultView {
                success: true,
                message: "文件保存成功"@,
                content: None,
                file_path: Some(file_path@),
                file_name: Some(shown_name(optional_text(file_name))),
                encoding: Some(encoding@),
                line_ending: Some(dominant_line_ending(content@).spec_name()),
            }),
    {
        FileOperationResult {
            success: true,
            message: String::from_str("文件保存成功"),
            content: None,
            file_path: Some(file_path),
            file_name: Some(file_name_or_unknown(file_name)),
            encoding: Some(encoding),
            line_ending: Some(detect_line_ending(content)),
        }
    }

    /// The result of a document that was renamed to `new_path`.
    pub fn renamed(new_path: String, file_name: Option<String>) -> (r: FileOperationResult)
        ensures
            r@ == (FileOperationResultView {
                success: true,
                message: "文件重命名成功"@,
                content: None,
                file_path: Some(new_path@),
                file_name: Some(shown_name(optional_text(file_name))),
                encoding: None,
                line_ending: None,
            }),
    {
        FileOperationResult {
            success: true,
            message: String::from_str("文件重命名成功"),
            content: None,
            file_path: Some(new_path),
            file_name: Some(file_name_or_unknown(file_name)),
            encoding: None,
            line_ending: None,
        }
    }

    /// The result of a document whose lines were all given the line
    /// ending `ending`.
    pub fn relined(file_path: String, file_name: Option<String>, ending: LineEnding) -> (r:
        FileOperationResult)
        ensures
            r@ == (FileOperationResultView {
                success: true,
                message: "文件行尾序列已更新"@,
                content: None,
                file_path: Some(file_path@),
                file_name: Some(shown_name(optional_text(file_name))),
                encoding: Some(DOCUMENT_ENCODING@),
                line_ending: Some(ending.spec_name()),
            }),
    {
        FileOperationResult {
            success: true,
            message: String::from_str("文件行尾序列已更新"),
            content: None,
            file_path: Some(file_path),
            file_name: Some(file_name_or_unknown(file_name)),
            encoding: Some(String::from_str(DOCUMENT_ENCODING)),
            line_ending: Some(String::from_str(ending.name())),
        }
    }
}

} // verus!
