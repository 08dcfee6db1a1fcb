//! Bounded command output: what is kept, and which lines are shown.
use crate::failure::{fail, refusal, unless, Failure};
use crate::text;
use crate::OutputStream;
use vstd::prelude::*;

verus! {

/// How a command writes its output.
#[derive(Clone, Copy, Debug, PartialEq, Eq, Structural)]
pub enum OutputFormat {
    Lines,
    /// Multipass's stdout uses ANSI redraws and a backspace followed by a spinner
    /// glyph.
    Terminal,
}

/// The longest line that is shown, in bytes.
pub const LINE_LIMIT: usize = 4096;

/// The most output of a command that is kept, in bytes: 4 MiB.
pub const OUTPUT_LIMIT: usize = 4_194_304;

/// How a runtime's command writes its output: Multipass's own commands redraw,
/// those in the guest do not.
pub fn multipass_format(args: &[String]) -> (r: OutputFormat)
    ensures
        r == (if args@.len() > 0 && args@[0]@ == "exec"@ {
            OutputFormat::Lines
        } else {
            OutputFormat::Terminal
        }),
{
    if args.len() > 0 && text::same(args[0].as_str(), "exec") {
        OutputFormat::Lines
    } else {
        OutputFormat::Terminal
    }
}

/// A line of output that is shown, or that one was too long.
#[derive(Debug)]
pub enum Line {
    Bytes(Vec<u8>),
    Omitted,
}

/// The content of a line.
pub enum LineView {
    Bytes(Seq<u8>),
    Omitted,
}

impl View for Line {
    type V = LineView;

    open spec fn view(&self) -> LineView {
        match self {
            Line::Bytes(b) => LineView::Bytes(b@),
            Line::Omitted => LineView::Omitted,
        }
    }
}

/// The reader of a command's output, one byte after the other.
#[derive(Debug)]
pub struct LineReader {
    pub terminal: bool,
    pub line: Vec<u8>,
    pub overflow: bool,
    /// The next printable byte is the glyph of a spinner.
    pub spinner: bool,
}

/// The content of a reader.
#[verifier::ext_equal]
pub struct ReaderView {
    pub terminal: bool,
    pub line: Seq<u8>,
    pub overflow: bool,
    pub spinner: bool,
}

impl View for LineReader {
    type V = ReaderView;

    open spec fn view(&self) -> ReaderView {
        ReaderView {
            terminal: self.terminal,
            line: self.line@,
            overflow: self.overflow,
            spinner: self.spinner,
        }
    }
}

/// Whether a byte is an ASCII control character.
pub open spec fn is_control_byte(b: u8) -> bool {
    b < 0x20 || b == 0x7f
}

/// Whether a byte ends a line. On a terminal a redraw does too.
pub open spec fn ends_line(terminal: bool, b: u8) -> bool {
    b == 0x0a || b == 0x0d || (terminal && (b == 0x08 || b == 0x1b))
}

/// The line that ends here; an empty one is not shown.
pub open spec fn ended_line(r: ReaderView) -> Option<LineView> {
    if r.overflow {
        Some(LineView::Omitted)
    } else if r.line.len() > 0 {
        Some(LineView::Bytes(r.line))
    } else {
        None
    }
}

/// The reader after a byte, and the line that ended with it.
pub open spec fn read_byte(r: ReaderView, b: u8) -> (ReaderView, Option<LineView>) {
    if r.spinner && !is_control_byte(b) {
        (ReaderView { spinner: false, ..r }, None)
    } else if ends_line(r.terminal, b) {
        (
            ReaderView {
                // An escape sequence is kept whole for the log to remove.
                line: if b == 0x1b {
                    seq![b]
                } else {
                    Seq::empty()
                },
                overflow: false,
                spinner: r.terminal && b == 0x08,
                ..r
            },
            ended_line(r),
        )
    } else if r.line.len() < LINE_LIMIT {
        (ReaderView { line: r.line.push(b), spinner: false, ..r }, None)
    } else {
        (ReaderView { overflow: true, spinner: false, ..r }, None)
    }
}

/// The reader after bytes, and the lines that ended with them.
pub open spec fn read_bytes(r: ReaderView, bytes: Seq<u8>) -> (ReaderView, Seq<LineView>)
    decreases bytes.len(),
{
    if bytes.len() == 0 {
        (r, Seq::empty())
    } else {
        let before = read_bytes(r, bytes.drop_last());
        let now = read_byte(before.0, bytes.last());
        match now.1 {
            Some(line) => (now.0, before.1.push(line)),
            None => (now.0, before.1),
        }
    }
}

/// The contents of lines.
pub open spec fn line_views(s: Seq<Line>) -> Seq<LineView> {
    crate::values::contents(s)
}

impl LineReader {
    /// A reader of a stream.
    pub fn new(format: OutputFormat, stream: OutputStream) -> (r: Self)
        ensures
            r@ == (ReaderView {
                terminal: format == OutputFormat::Terminal && stream == OutputStream::Stdout,
                line: Seq::empty(),
                overflow: false,
                spinner: false,
            }),
    {
        let r = LineReader {
            terminal: format == OutputFormat::Terminal && stream == OutputStream::Stdout,
            line: Vec::new(),
            overflow: false,
            spinner: false,
        };
        assert(r@.line =~= Seq::<u8>::empty());
        r
    }

    fn end_line(&mut self) -> (r: Option<Line>)
        ensures
            crate::values::content(r) == ended_line(old(self)@),
            final(self)@ == (ReaderView {
                line: Seq::empty(),
                overflow: false,
                ..old(self)@
            }),
    {
        let mut line: Vec<u8> = Vec::new();
        std::mem::swap(&mut line, &mut self.line);
        let r = if self.overflow {
            Some(Line::Omitted)
        } else if line.len() > 0 {
            Some(Line::Bytes(line))
        } else {
            None
        };
        self.overflow = false;
        assert(self@.line =~= Seq::<u8>::empty());
        r
    }

    fn add_byte(&mut self, b: u8) -> (r: Option<Line>)
        ensures
            final(self)@ == read_byte(old(self)@, b).0,
            crate::values::content(r) == read_byte(old(self)@, b).1,
    {
        if self.spinner && !(b < 0x20 || b == 0x7f) {
            self.spinner = false;
            return None;
        }
        self.spinner = false;
        if b == 0x0a || b == 0x0d || (self.terminal && (b == 0x08 || b == 0x1b)) {
            let ended = self.end_line();
            if b == 0x1b {
                self.line.push(b);
                assert(self@.line =~= seq![b]);
            }
            self.spinner = self.terminal && b == 0x08;
            ended
        } else {
            if self.line.len() < LINE_LIMIT {
                self.line.push(b);
            } else {
                self.overflow = true;
            }
            None
        }
    }

    /// Read more output. The lines that ended are returned.
    pub fn read(&mut self, bytes: &[u8]) -> (r: Vec<Line>)
        ensures
            final(self)@ == read_bytes(old(self)@, bytes@).0,
            line_views(r@) == read_bytes(old(self)@, bytes@).1,
    {
        let ghost first = self@;
        let mut r: Vec<Line> = Vec::new();
        assert(bytes@.take(0) =~= Seq::<u8>::empty());
        assert(line_views(r@) =~= Seq::<LineView>::empty());
        for i in 0..bytes.len()
            invariant
                self@ == read_bytes(first, bytes@.take(i as int)).0,
                line_views(r@) == read_bytes(first, bytes@.take(i as int)).1,
        {
            assert(bytes@.take(i + 1).drop_last() =~= bytes@.take(i as int));
            match self.add_byte(bytes[i]) {
                Some(line) => {
                    let ghost before = line_views(r@);
                    r.push(line);
                    assert(line_views(r@) =~= before.push(line@));
                },
                None => {},
            }
        }
        assert(bytes@.take(bytes@.len() as int) =~= bytes@);
        r
    }

    /// The last line, where the output ends without ending it.
    pub fn finish(self) -> (r: Option<Line>)
        ensures
            crate::values::content(r) == ended_line(self@),
    {
        if self.overflow {
            Some(Line::Omitted)
        } else if self.line.len() > 0 {
            Some(Line::Bytes(self.line))
        } else {
            None
        }
    }
}

/// What is shown in place of a line that is too long.
pub fn omitted_text() -> (r: &'static str)
    ensures
        r@ == "[Output omitted: line exceeds 4096 bytes]"@,
{
    "[Output omitted: line exceeds 4096 bytes]"
}

/// However long the output is, no line that is shown exceeds the limit.
pub proof fn lines_stay_bounded(r: ReaderView, bytes: Seq<u8>)
    requires
        r.line.len() <= LINE_LIMIT,
    ensures
        read_bytes(r, bytes).0.line.len() <= LINE_LIMIT,
        forall|i: int|
            0 <= i < read_bytes(r, bytes).1.len() ==> (#[trigger] read_bytes(r, bytes).1[i] matches LineView::Bytes(
                line,
            ) ==> 0 < line.len() <= LINE_LIMIT),
    decreases bytes.len(),
{
    if bytes.len() > 0 {
        lines_stay_bounded(r, bytes.drop_last());
        let before = read_bytes(r, bytes.drop_last());
        let now = read_bytes(r, bytes);
        assert forall|i: int| 0 <= i < now.1.len() implies (#[trigger] now.1[i] matches LineView::Bytes(
            line,
        ) ==> 0 < line.len() <= LINE_LIMIT) by {
            if i < before.1.len() {
                assert(now.1[i] == before.1[i]);
            }
        }
    }
}

/// Output is read the same however it is cut into pieces.
pub proof fn pieces_do_not_matter(r: ReaderView, a: Seq<u8>, b: Seq<u8>)
    ensures
        read_bytes(r, a + b).0 == read_bytes(read_bytes(r, a).0, b).0,
        read_bytes(r, a + b).1 == read_bytes(r, a).1 + read_bytes(read_bytes(r, a).0, b).1,
    decreases b.len(),
{
    let middle = read_bytes(r, a);
    if b.len() == 0 {
        assert(a + b =~= a);
        assert(middle.1 + Seq::<LineView>::empty() =~= middle.1);
    } else {
        pieces_do_not_matter(r, a, b.drop_last());
        assert((a + b).drop_last() =~= a + b.drop_last());
        assert((a + b).last() == b.last());
        let before = read_bytes(middle.0, b.drop_last());
        let now = read_byte(before.0, b.last());
        if now.1 is Some {
            assert(middle.1 + before.1.push(now.1->0) =~= (middle.1 + before.1).push(now.1->0));
        }
    }
}

/// How much output is kept after more of it.
pub fn add_output(kept: usize, more: usize) -> (r: Result<usize, Failure>)
    ensures
        refusal(r) == unless(
            kept + more <= OUTPUT_LIMIT,
            "Worker command exceeded its 4 MiB output limit"@,
        ),
        r matches Ok(n) ==> n == kept + more,
{
    match kept.checked_add(more) {
        Some(n) => if n <= OUTPUT_LIMIT {
            Ok(n)
        } else {
            Err(fail("Worker command exceeded its 4 MiB output limit"))
        },
        None => Err(fail("Worker command exceeded its 4 MiB output limit")),
    }
}

/// How much of an archive was streamed after more of it.
pub fn add_stream(bytes: u64, more: u64, limit: u64) -> (r: Result<u64, Failure>)
    ensures
        refusal(r) == (if bytes + more > u64::MAX {
            Some("Backup size overflow"@)
        } else {
            unless(
                bytes + more <= limit,
                "Backup exceeded its reviewed temporary space; source images preserved"@,
            )
        }),
        r matches Ok(n) ==> n == bytes + more,
{
    match bytes.checked_add(more) {
        Some(n) => if n <= limit {
            Ok(n)
        } else {
            Err(fail("Backup exceeded its reviewed temporary space; source images preserved"))
        },
        None => Err(fail("Backup size overflow")),
    }
}

/// Whether a streamed command ended well.
pub fn check_stream(success: bool, errors: &str) -> (r: Result<(), Failure>)
    ensures
        refusal(r) == unless(
            success,
            "Worker backup operation failed: "@ + text::take_at_most(errors@, 1200),
        ),
{
    if success {
        return Ok(());
    }
    let cut = text::take_text(errors, 1200);
    Err(Failure { message: text::join2("Worker backup operation failed: ", cut.as_str()) })
}

/// What a command that takes too long is told.
pub fn timeout_text(seconds: u64) -> (r: String)
    ensures
        r@ == "The worker operation timed out after "@ + text::decimal(seconds as nat)
            + " seconds"@,
{
    let number = text::decimal_text(seconds);
    text::join3("The worker operation timed out after ", number.as_str(), " seconds")
}

} // verus!
