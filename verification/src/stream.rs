//! The streaming assessment pipeline: the incremental parser and buffer for
//! the backend's streamed records, and the state machine that gates their
//! release on inspection verdicts.
//!
//! The surrounding program drives the machine: it feeds each upstream chunk
//! in, performs the one inspection the machine may have in flight, hands the
//! verdict back, and drains released chunks to the client. Everything the
//! machine decides — what is parsed where, when an inspection is triggered,
//! what may be released, and that a blocking verdict is terminal — is
//! verified here.

use vstd::prelude::*;
use vstd::string::StrSliceExecFns;
use crate::handlers::utils::{format_security_violation_message, violation_message};
use crate::jsonrec::{chat_record, encode_chat_record, encode_generate_record, generate_record};
use crate::security::{opt_is, Assessment, SecurityError};
use crate::types::Content;
use crate::util::push_char;

verus! {

/// Unassessed content at or above this length (in characters) always
/// triggers an inspection.
pub const ASSESSMENT_WINDOW: usize = 100000;

/// Unassessed text must be longer than this for a sentence boundary to
/// trigger an inspection.
pub const BOUNDARY_MIN_LEN: usize = 15;

/// The state of the incremental fence parser: the two content buffers, the
/// fence state, a run of backticks not yet resolved into a fence, and
/// whether a language tag is being skipped.
#[verifier::ext_equal]
pub ghost struct ParserState {
    pub text: Seq<char>,
    pub code: Seq<char>,
    pub in_block: bool,
    pub ticks: nat,
    pub skip_tag: bool,
}

/// A run of up to two backticks.
pub open spec fn ticks_seq(n: nat) -> Seq<char> {
    if n == 0 {
        Seq::empty()
    } else if n == 1 {
        seq!['`']
    } else {
        seq!['`', '`']
    }
}

/// One step of the incremental fence parser. A third consecutive backtick
/// completes a fence and toggles the code state; entering a fence starts
/// skipping the rest of the line (the language tag). Any shorter backtick
/// run is flushed to the active buffer when an ordinary character follows,
/// and ordinary characters go to the buffer named by the fence state.
pub open spec fn parse_char(s: ParserState, ch: char) -> ParserState {
    if ch == '`' {
        if s.ticks == 2 {
            if s.in_block {
                ParserState { in_block: false, ticks: 0, skip_tag: false, ..s }
            } else {
                ParserState { in_block: true, ticks: 0, skip_tag: true, ..s }
            }
        } else {
            ParserState { ticks: s.ticks + 1, ..s }
        }
    } else {
        let flushed = if s.skip_tag {
            ParserState { ticks: 0, ..s }
        } else if s.in_block {
            ParserState { code: s.code + ticks_seq(s.ticks), ticks: 0, ..s }
        } else {
            ParserState { text: s.text + ticks_seq(s.ticks), ticks: 0, ..s }
        };
        if s.skip_tag {
            if ch == '\n' {
                ParserState { skip_tag: false, ..flushed }
            } else {
                flushed
            }
        } else if s.in_block {
            ParserState { code: flushed.code.push(ch), ..flushed }
        } else {
            ParserState { text: flushed.text.push(ch), ..flushed }
        }
    }
}

/// The fence parser run over a whole piece of content.
pub open spec fn parse_piece(s: ParserState, p: Seq<char>) -> ParserState
    decreases p.len(),
{
    if p.len() == 0 {
        s
    } else {
        parse_piece(parse_char(s, p[0]), p.drop_first())
    }
}

/// Parsing never shortens a buffer: content is only appended.
pub proof fn lemma_parse_piece_grows(s: ParserState, p: Seq<char>)
    ensures
        parse_piece(s, p).text.len() >= s.text.len(),
        parse_piece(s, p).code.len() >= s.code.len(),
        parse_piece(s, p).ticks <= 2 || s.ticks > 2,
    decreases p.len(),
{
    if p.len() == 0 {
    } else {
        lemma_parse_piece_grows(parse_char(s, p[0]), p.drop_first());
    }
}

/// A raw chunk passed through from upstream, or a record this proxy
/// synthesized (a masked rewrite).
#[derive(Debug, Clone)]
pub enum OutChunk {
    Raw(Vec<u8>),
    Synthesized(String),
}

/// Named result relied on below: the content field of one wire record,
/// as `serde_json` parses it — `message.content` for chat-shaped records,
/// `response` for generate-shaped ones; `None` for records that do not
/// parse or carry no such field. A function of the bytes alone.
pub uninterp spec fn content_of(chat_shape: bool, chunk: Seq<u8>) -> Option<Seq<char>>;

/// Relies on `serde_json::from_slice` and `serde_json::Value::{get, as_str}`:
/// parses one wire record and extracts its content field, `message.content`
/// for chat-shaped records and `response` for generate-shaped ones.
#[verifier::external_body]
fn extract_content(chunk: &Vec<u8>, chat_shape: bool) -> (r: Option<String>)
    ensures
        r matches Some(s) ==> (content_of(chat_shape, chunk@) matches Some(c) && s@ == c),
        r is None ==> content_of(chat_shape, chunk@) is None,
{
    let v: serde_json::Value = match serde_json::from_slice(chunk.as_slice()) {
        Ok(v) => v,
        Err(_) => return None,
    };
    let field = if chat_shape {
        v.get("message").and_then(|m| m.get("content"))
    } else {
        v.get("response")
    };
    field.and_then(|c| c.as_str()).map(|s| s.to_string())
}

/// Per-stream parser and accumulator: splits streamed content into text and
/// code buffers, tracks what has already been submitted for inspection, and
/// holds raw chunks back until a verdict covers them.
#[derive(Debug)]
pub struct StreamBuffer {
    /// Content read outside code fences.
    pub text_buffer: String,
    /// Content read inside code fences.
    pub code_buffer: String,
    /// Whether the parser is inside a fence.
    pub in_code_block: bool,
    /// A run of backticks at the end of the input so far, not yet resolved.
    pub pending_ticks: u8,
    /// Whether the parser is skipping a language tag after an opening fence.
    pub skip_language_tag: bool,
    /// Characters of `text_buffer` strictly before this have been submitted.
    pub last_assessed_text_pos: usize,
    /// Characters of `code_buffer` strictly before this have been submitted.
    pub last_assessed_code_pos: usize,
    /// Raw chunks received since the last verdict, while no inspection is in
    /// flight.
    pub accum_out: Vec<Vec<u8>>,
    /// Raw chunks held back while an inspection is in flight.
    pub pending_out: Vec<Vec<u8>>,
    /// Chunks cleared for emission, in order.
    pub released_out: Vec<OutChunk>,
    /// An inspection is in flight.
    pub waiting_for_assessment: bool,
    /// Debounces repeated boundary triggers.
    pub last_was_boundary: bool,
    /// A blocking verdict was received; terminal.
    pub blocked: bool,
    /// Upstream has ended and the stream is draining.
    pub finished: bool,
}

impl StreamBuffer {
    /// The parser-state view of this buffer.
    pub open spec fn parser(self) -> ParserState {
        ParserState {
            text: self.text_buffer@,
            code: self.code_buffer@,
            in_block: self.in_code_block,
            ticks: self.pending_ticks as nat,
            skip_tag: self.skip_language_tag,
        }
    }

    /// Well-formedness: watermarks within their buffers, the backtick run
    /// short, chunks held back only in the right phase, and a blocked or
    /// finished buffer empty of held content.
    pub open spec fn wf(self) -> bool {
        &&& self.last_assessed_text_pos <= self.text_buffer@.len()
        &&& self.last_assessed_code_pos <= self.code_buffer@.len()
        &&& self.pending_ticks <= 2
        &&& (self.pending_out@.len() > 0 ==> self.waiting_for_assessment)
        &&& (self.waiting_for_assessment ==> self.accum_out@.len() == 0)
        &&& (self.blocked ==> !self.waiting_for_assessment && self.pending_out@.len() == 0
            && self.accum_out@.len() == 0 && self.released_out@.len() == 0)
        &&& (self.finished ==> !self.waiting_for_assessment && self.pending_out@.len() == 0
            && self.accum_out@.len() == 0)
    }

    /// The text not yet submitted for inspection.
    pub open spec fn unassessed_text(self) -> Seq<char> {
        self.text_buffer@.skip(self.last_assessed_text_pos as int)
    }

    /// The code not yet submitted for inspection.
    pub open spec fn unassessed_code(self) -> Seq<char> {
        self.code_buffer@.skip(self.last_assessed_code_pos as int)
    }

    /// Whether anything new has accumulated since the last submission.
    pub open spec fn has_new_content(self) -> bool {
        self.unassessed_text().len() > 0 || self.unassessed_code().len() > 0
    }
}

/// Whether `c` ends a sentence for the boundary trigger.
pub open spec fn spec_boundary_char(c: char) -> bool {
    c == '.' || c == '!' || c == '?' || c == '\n'
}

/// Window trigger: an unassessed suffix has reached the assessment window.
pub open spec fn window_trigger(b: StreamBuffer) -> bool {
    b.unassessed_text().len() >= ASSESSMENT_WINDOW as int || b.unassessed_code().len()
        >= ASSESSMENT_WINDOW as int
}

/// Code-close trigger: a fence has closed and unassessed code remains.
pub open spec fn code_close_trigger(b: StreamBuffer) -> bool {
    !b.in_code_block && b.unassessed_code().len() > 0
}

/// Boundary trigger under the given debounce flag: the unassessed text is
/// long enough, ends on a sentence boundary, and the previous trigger was
/// not already a boundary.
pub open spec fn boundary_trigger_with(b: StreamBuffer, last_was_boundary: bool) -> bool {
    b.unassessed_text().len() > BOUNDARY_MIN_LEN as int && spec_boundary_char(
        b.unassessed_text().last(),
    ) && !last_was_boundary
}

/// Boundary trigger under the buffer's own debounce flag.
pub open spec fn boundary_trigger(b: StreamBuffer) -> bool {
    boundary_trigger_with(b, b.last_was_boundary)
}

/// Whether the buffer's content calls for an inspection, under the given
/// debounce flag.
pub open spec fn should_trigger_with(b: StreamBuffer, last_was_boundary: bool) -> bool {
    b.has_new_content() && (window_trigger(b) || code_close_trigger(b) || boundary_trigger_with(
        b,
        last_was_boundary,
    ))
}

/// Whether the buffer state calls for an inspection.
pub open spec fn should_trigger(b: StreamBuffer) -> bool {
    should_trigger_with(b, b.last_was_boundary)
}

/// The boundary-debounce flag after one trigger decision: set when a
/// boundary fired, reset when the text ends on a non-boundary character,
/// kept otherwise.
pub open spec fn next_lwb(b: StreamBuffer) -> bool {
    if b.has_new_content() && !window_trigger(b) && !code_close_trigger(b)
        && b.unassessed_text().len() > 0 {
        if boundary_trigger(b) {
            true
        } else if !spec_boundary_char(b.unassessed_text().last()) {
            false
        } else {
            b.last_was_boundary
        }
    } else {
        b.last_was_boundary
    }
}

/// Whether `env` is the inspection envelope for buffer `b`: the unassessed
/// text on the side named by `is_prompt`, the unassessed code beside it
/// when non-empty, nothing on the other side, and no grounding context.
pub open spec fn spec_stream_envelope(env: Content, b: StreamBuffer, is_prompt: bool) -> bool {
    &&& env.context is None
    &&& (is_prompt ==> {
        &&& opt_is(env.prompt, b.unassessed_text())
        &&& (b.unassessed_code().len() > 0 ==> opt_is(env.code_prompt, b.unassessed_code()))
        &&& (b.unassessed_code().len() == 0 ==> env.code_prompt is None)
        &&& env.response is None
        &&& env.code_response is None
    })
    &&& (!is_prompt ==> {
        &&& opt_is(env.response, b.unassessed_text())
        &&& (b.unassessed_code().len() > 0 ==> opt_is(env.code_response, b.unassessed_code()))
        &&& (b.unassessed_code().len() == 0 ==> env.code_response is None)
        &&& env.prompt is None
        &&& env.code_prompt is None
    })
}

impl StreamBuffer {
    /// A fresh buffer: everything empty, outside any fence.
    pub fn new() -> (r: Self)
        ensures
            r.wf(),
            r.text_buffer@.len() == 0,
            r.code_buffer@.len() == 0,
            !r.in_code_block,
            r.pending_ticks == 0,
            !r.skip_language_tag,
            r.last_assessed_text_pos == 0,
            r.last_assessed_code_pos == 0,
            r.accum_out@.len() == 0,
            r.pending_out@.len() == 0,
            r.released_out@.len() == 0,
            !r.waiting_for_assessment,
            !r.last_was_boundary,
            !r.blocked,
            !r.finished,
    {
        StreamBuffer {
            text_buffer: String::new(),
            code_buffer: String::new(),
            in_code_block: false,
            pending_ticks: 0,
            skip_language_tag: false,
            last_assessed_text_pos: 0,
            last_assessed_code_pos: 0,
            accum_out: Vec::new(),
            pending_out: Vec::new(),
            released_out: Vec::new(),
            waiting_for_assessment: false,
            last_was_boundary: false,
            blocked: false,
            finished: false,
        }
    }

    fn flush_ticks(&mut self)
        requires
            old(self).pending_ticks <= 2,
        ensures
            final(self).pending_ticks == 0,
            !old(self).skip_language_tag && old(self).in_code_block ==> (final(self).code_buffer@
                == old(self).code_buffer@ + ticks_seq(old(self).pending_ticks as nat)
                && final(self).text_buffer == old(self).text_buffer),
            !old(self).skip_language_tag && !old(self).in_code_block ==> (final(self).text_buffer@
                == old(self).text_buffer@ + ticks_seq(old(self).pending_ticks as nat)
                && final(self).code_buffer == old(self).code_buffer),
            old(self).skip_language_tag ==> (final(self).text_buffer == old(self).text_buffer
                && final(self).code_buffer == old(self).code_buffer),
            final(self).in_code_block == old(self).in_code_block,
            final(self).skip_language_tag == old(self).skip_language_tag,
            final(self).last_assessed_text_pos == old(self).last_assessed_text_pos,
            final(self).last_assessed_code_pos == old(self).last_assessed_code_pos,
            final(self).accum_out == old(self).accum_out,
            final(self).pending_out == old(self).pending_out,
            final(self).released_out == old(self).released_out,
            final(self).waiting_for_assessment == old(self).waiting_for_assessment,
            final(self).last_was_boundary == old(self).last_was_boundary,
            final(self).blocked == old(self).blocked,
            final(self).finished == old(self).finished,
    {
        let ghost t0 = self.text_buffer@;
        let ghost c0 = self.code_buffer@;
        let ticks = self.pending_ticks;
        if !self.skip_language_tag {
            let mut k: u8 = 0;
            while k < ticks
                invariant
                    k <= ticks,
                    ticks <= 2,
                    self.in_code_block == old(self).in_code_block,
                    self.skip_language_tag == old(self).skip_language_tag,
                    !self.skip_language_tag,
                    self.in_code_block ==> (self.code_buffer@ == c0 + ticks_seq(k as nat)
                        && self.text_buffer == old(self).text_buffer),
                    !self.in_code_block ==> (self.text_buffer@ == t0 + ticks_seq(k as nat)
                        && self.code_buffer == old(self).code_buffer),
                    self.pending_ticks == old(self).pending_ticks,
                    self.last_assessed_text_pos == old(self).last_assessed_text_pos,
                    self.last_assessed_code_pos == old(self).last_assessed_code_pos,
                    self.accum_out == old(self).accum_out,
                    self.pending_out == old(self).pending_out,
                    self.released_out == old(self).released_out,
                    self.waiting_for_assessment == old(self).waiting_for_assessment,
                    self.last_was_boundary == old(self).last_was_boundary,
                    self.blocked == old(self).blocked,
                    self.finished == old(self).finished,
                decreases ticks - k,
            {
                if self.in_code_block {
                    push_char(&mut self.code_buffer, '`');
                } else {
                    push_char(&mut self.text_buffer, '`');
                }
                k = k + 1;
                proof {
                    if self.in_code_block {
                        assert(self.code_buffer@ =~= c0 + ticks_seq(k as nat));
                    } else {
                        assert(self.text_buffer@ =~= t0 + ticks_seq(k as nat));
                    }
                }
            }
        }
        self.pending_ticks = 0;
    }

    fn process_content(&mut self, piece: &str)
        requires
            old(self).wf(),
        ensures
            final(self).parser() == parse_piece(old(self).parser(), piece@),
            final(self).last_assessed_text_pos == old(self).last_assessed_text_pos,
            final(self).last_assessed_code_pos == old(self).last_assessed_code_pos,
            final(self).accum_out == old(self).accum_out,
            final(self).pending_out == old(self).pending_out,
            final(self).released_out == old(self).released_out,
            final(self).waiting_for_assessment == old(self).waiting_for_assessment,
            final(self).last_was_boundary == old(self).last_was_boundary,
            final(self).blocked == old(self).blocked,
            final(self).finished == old(self).finished,
            final(self).wf(),
    {
        let n = piece.unicode_len();
        let mut i: usize = 0;
        proof {
            assert(piece@.skip(0) =~= piece@);
        }
        while i < n
            invariant
                i <= n,
                n == piece@.len(),
                self.pending_ticks <= 2,
                parse_piece(old(self).parser(), piece@) == parse_piece(
                    self.parser(),
                    piece@.skip(i as int),
                ),
                self.text_buffer@.len() >= old(self).text_buffer@.len(),
                self.code_buffer@.len() >= old(self).code_buffer@.len(),
                self.last_assessed_text_pos == old(self).last_assessed_text_pos,
                self.last_assessed_code_pos == old(self).last_assessed_code_pos,
                self.accum_out == old(self).accum_out,
                self.pending_out == old(self).pending_out,
                self.released_out == old(self).released_out,
                self.waiting_for_assessment == old(self).waiting_for_assessment,
                self.last_was_boundary == old(self).last_was_boundary,
                self.blocked == old(self).blocked,
                self.finished == old(self).finished,
            decreases n - i,
        {
            let ghost pre = self.parser();
            let c = piece.get_char(i);
            proof {
                assert(piece@.skip(i as int)[0] == piece@[i as int]);
                assert(piece@.skip(i as int).drop_first() =~= piece@.skip(i as int + 1));
            }
            if c == '`' {
                if self.pending_ticks == 2 {
                    if self.in_code_block {
                        self.in_code_block = false;
                        self.skip_language_tag = false;
                        self.pending_ticks = 0;
                    } else {
                        self.in_code_block = true;
                        self.skip_language_tag = true;
                        self.pending_ticks = 0;
                    }
                } else {
                    self.pending_ticks = self.pending_ticks + 1;
                }
            } else {
                let was_skipping = self.skip_language_tag;
                let was_in_block = self.in_code_block;
                self.flush_ticks();
                if was_skipping {
                    if c == '\n' {
                        self.skip_language_tag = false;
                    }
                } else if was_in_block {
                    push_char(&mut self.code_buffer, c);
                } else {
                    push_char(&mut self.text_buffer, c);
                }
            }
            proof {
                assert(self.parser() =~= parse_char(pre, c));
            }
            i = i + 1;
        }
        proof {
            assert(piece@.skip(n as int) =~= Seq::<char>::empty());
        }
    }

    /// Ingests the parsed content of one wire record: its content field, as
    /// the named extraction gives it, is run through the fence parser; a
    /// record without one leaves the buffers unchanged. The raw bytes are
    /// not stored here — the stream machine holds them back separately.
    pub fn process(&mut self, chunk: &Vec<u8>, chat_shape: bool)
        requires
            old(self).wf(),
        ensures
            final(self).parser() == (match content_of(chat_shape, chunk@) {
                Some(c) => parse_piece(old(self).parser(), c),
                None => old(self).parser(),
            }),
            final(self).last_assessed_text_pos == old(self).last_assessed_text_pos,
            final(self).last_assessed_code_pos == old(self).last_assessed_code_pos,
            final(self).accum_out == old(self).accum_out,
            final(self).pending_out == old(self).pending_out,
            final(self).released_out == old(self).released_out,
            final(self).waiting_for_assessment == old(self).waiting_for_assessment,
            final(self).last_was_boundary == old(self).last_was_boundary,
            final(self).blocked == old(self).blocked,
            final(self).finished == old(self).finished,
            final(self).text_buffer@.len() >= old(self).text_buffer@.len(),
            final(self).code_buffer@.len() >= old(self).code_buffer@.len(),
            final(self).wf(),
    {
        match extract_content(chunk, chat_shape) {
            Some(content) => {
                proof {
                    lemma_parse_piece_grows(self.parser(), content@);
                }
                self.process_content(content.as_str());
            },
            None => {},
        }
    }

    /// Builds the inspection envelope from the unassessed suffixes, on the
    /// side named by `is_prompt`: the text always, the code only when any
    /// unassessed code exists.
    pub fn prepare_assessment_content(&self, is_prompt: bool) -> (r: Content)
        requires
            self.wf(),
        ensures
            spec_stream_envelope(r, *self, is_prompt),
    {
        let text_len = self.text_buffer.as_str().unicode_len();
        let code_len = self.code_buffer.as_str().unicode_len();
        let new_text = self.text_buffer.as_str().substring_char(
            self.last_assessed_text_pos,
            text_len,
        ).to_owned();
        let new_code = self.code_buffer.as_str().substring_char(
            self.last_assessed_code_pos,
            code_len,
        ).to_owned();
        proof {
            assert(new_text@ =~= self.unassessed_text());
            assert(new_code@ =~= self.unassessed_code());
        }
        let has_new_code = new_code.as_str().unicode_len() > 0;
        if is_prompt {
            Content {
                prompt: Some(new_text),
                response: None,
                code_prompt: if has_new_code {
                    Some(new_code)
                } else {
                    None
                },
                code_response: None,
                context: None,
            }
        } else {
            Content {
                prompt: None,
                response: Some(new_text),
                code_prompt: None,
                code_response: if has_new_code {
                    Some(new_code)
                } else {
                    None
                },
                context: None,
            }
        }
    }

    /// Decides whether the accumulated content calls for an inspection, and
    /// maintains the boundary debounce. Returns the envelope to submit when
    /// a window, code-close or sentence-boundary trigger fires.
    pub fn get_assessable_chunk(&mut self, is_prompt: bool) -> (r: Option<Content>)
        requires
            old(self).wf(),
        ensures
            final(self).wf(),
            *final(self) == (StreamBuffer { last_was_boundary: next_lwb(*old(self)), ..*old(self) }),
            r is Some <==> should_trigger(*old(self)),
            r matches Some(env) ==> spec_stream_envelope(env, *old(self), is_prompt),
    {
        let text_len = self.text_buffer.as_str().unicode_len();
        let code_len = self.code_buffer.as_str().unicode_len();
        let new_text_len = text_len - self.last_assessed_text_pos;
        let new_code_len = code_len - self.last_assessed_code_pos;
        if new_text_len == 0 && new_code_len == 0 {
            return None;
        }
        if new_text_len >= ASSESSMENT_WINDOW || new_code_len >= ASSESSMENT_WINDOW {
            return Some(self.prepare_assessment_content(is_prompt));
        }
        if !self.in_code_block && new_code_len > 0 {
            return Some(self.prepare_assessment_content(is_prompt));
        }
        if new_text_len > 0 {
            let last_char = self.text_buffer.as_str().get_char(text_len - 1);
            proof {
                assert(self.unassessed_text().last() == self.text_buffer@[text_len - 1]);
            }
            let is_boundary = last_char == '.' || last_char == '!' || last_char == '?'
                || last_char == '\n';
            if is_boundary && new_text_len > BOUNDARY_MIN_LEN && !self.last_was_boundary {
                self.last_was_boundary = true;
                return Some(self.prepare_assessment_content(is_prompt));
            } else if !is_boundary {
                self.last_was_boundary = false;
            }
        }
        None
    }

    /// Commits a passing verdict. Both watermarks advance to the buffer
    /// ends, so the covered content is never submitted again. Watermarks
    /// never move backwards.
    pub fn commit(&mut self, is_safe: bool)
        requires
            old(self).wf(),
        ensures
            final(self).wf(),
            is_safe ==> *final(self) == (StreamBuffer {
                last_assessed_text_pos: old(self).text_buffer@.len() as usize,
                last_assessed_code_pos: old(self).code_buffer@.len() as usize,
                ..*old(self)
            }),
            is_safe ==> final(self).last_assessed_text_pos == old(self).text_buffer@.len(),
            is_safe ==> final(self).last_assessed_code_pos == old(self).code_buffer@.len(),
            !is_safe ==> *final(self) == *old(self),
            final(self).last_assessed_text_pos >= old(self).last_assessed_text_pos,
            final(self).last_assessed_code_pos >= old(self).last_assessed_code_pos,
    {
        if is_safe {
            self.last_assessed_text_pos = self.text_buffer.as_str().unicode_len();
            self.last_assessed_code_pos = self.code_buffer.as_str().unicode_len();
        }
    }
}

/// The byte views of a sequence of raw chunks.
pub open spec fn views(s: Seq<Vec<u8>>) -> Seq<Seq<u8>> {
    s.map_values(|v: Vec<u8>| v@)
}

/// The byte views of the raw chunks among released output, in order;
/// synthesized records are not upstream bytes and do not appear.
pub open spec fn raw_views(s: Seq<OutChunk>) -> Seq<Seq<u8>>
    decreases s.len(),
{
    if s.len() == 0 {
        Seq::empty()
    } else {
        raw_views(s.drop_last()) + (match s.last() {
            OutChunk::Raw(v) => seq![v@],
            OutChunk::Synthesized(_) => Seq::<Seq<u8>>::empty(),
        })
    }
}

/// Whether every released chunk is a raw upstream chunk.
pub open spec fn all_raw(s: Seq<OutChunk>) -> bool {
    forall|i: int| 0 <= i < s.len() ==> #[trigger] s[i] is Raw
}

proof fn lemma_raw_views_push(s: Seq<OutChunk>, c: OutChunk)
    ensures
        raw_views(s.push(c)) == raw_views(s) + (match c {
            OutChunk::Raw(v) => seq![v@],
            OutChunk::Synthesized(_) => Seq::<Seq<u8>>::empty(),
        }),
{
    assert(s.push(c).drop_last() =~= s);
    assert(s.push(c).last() == c);
}

/// The record synthesized in place of blocked content: the fixed model
/// name, the block time, and the violation message as terminal content.
pub open spec fn blocked_record(chat_shape: bool, created_at: Seq<char>, a: Assessment) -> Seq<
    char,
> {
    if chat_shape {
        chat_record(
            "security-filter"@,
            created_at,
            "assistant"@,
            violation_message(
                a.category@,
                a.action@,
                a.details.prompt_detected,
                a.details.response_detected,
            ),
            true,
        )
    } else {
        generate_record(
            "security-filter"@,
            created_at,
            violation_message(
                a.category@,
                a.action@,
                a.details.prompt_detected,
                a.details.response_detected,
            ),
            true,
        )
    }
}

/// The single record synthesized in place of a masked held range: the
/// sanitized rewrite under the stream's own wire shape, not terminal.
pub open spec fn masked_record(
    chat_shape: bool,
    model: Seq<char>,
    created_at: Seq<char>,
    content: Seq<char>,
) -> Seq<char> {
    if chat_shape {
        chat_record(model, created_at, "assistant"@, content, false)
    } else {
        generate_record(model, created_at, content, false)
    }
}

/// Relies on `chrono::Utc::now().to_rfc3339()`: the current time in RFC 3339
/// form. Nothing is promised of its value.
#[verifier::external_body]
fn now_rfc3339() -> String {
    chrono::Utc::now().to_rfc3339()
}

/// Builds the blocked envelope for a failing verdict at the present moment:
/// a chat-shaped terminal record whose content is the violation message.
pub fn create_blocked_response(assessment: &Assessment) -> (r: String)
    ensures
        exists|ts: Seq<char>| r@ == blocked_record(true, ts, *assessment),
{
    let ts = now_rfc3339();
    let message = format_security_violation_message(assessment);
    let r = encode_chat_record("security-filter", ts.as_str(), "assistant", message.as_str(), true);
    proof {
        assert(r@ == blocked_record(true, ts@, *assessment));
    }
    r
}

/// What one verdict did to the stream.
#[derive(Debug)]
pub enum VerdictOutcome {
    /// A passing verdict released the held chunks unchanged.
    Released,
    /// A passing verdict with a rewrite replaced the held chunks with one
    /// synthesized record.
    MaskedSubstituted,
    /// A blocking verdict dropped the held chunks; this terminal record is
    /// to be emitted, after which the stream ends.
    Blocked(String),
    /// The inspection failed; per the degraded-open policy the held chunks
    /// were released anyway.
    DegradedReleased,
}

/// The per-stream assessment state machine. It owns the stream's buffer and
/// records, as ghost history, every chunk received from upstream and every
/// raw chunk handed downstream, so that the ordering and gating laws are
/// stated over the machine itself.
pub struct SecurityAssessedStream {
    pub buffer: StreamBuffer,
    /// The model name used for synthesized records and inspection metadata.
    pub model_name: String,
    /// Whether streamed content is inspected as prompt or as response.
    pub is_prompt: bool,
    /// Whether records are chat-shaped (`message.content`) or
    /// generate-shaped (`response`).
    pub chat_shape: bool,
    /// Every raw chunk received from upstream, in order.
    pub hist_in: Ghost<Seq<Seq<u8>>>,
    /// Every raw chunk handed downstream, in order.
    pub emitted: Ghost<Seq<Seq<u8>>>,
    /// A masked substitution has happened.
    pub mask_used: Ghost<bool>,
    /// A failed inspection has released chunks under the degraded-open
    /// policy.
    pub degraded: Ghost<bool>,
}

impl SecurityAssessedStream {
    /// Ordering invariant: what came in is exactly what was handed out,
    /// what is released and waiting to be handed out, what is held for a
    /// verdict, and what has accumulated since the last one — in that
    /// order, nothing lost, nothing reordered.
    pub open spec fn ordering_ok(self) -> bool {
        self.hist_in@ == self.emitted@ + raw_views(self.buffer.released_out@) + views(
            self.buffer.pending_out@,
        ) + views(self.buffer.accum_out@)
    }

    /// Well-formedness: the buffer invariants, and — as long as no masked
    /// substitution happened and no block ended the stream — every released
    /// chunk is a raw upstream chunk and the ordering invariant holds.
    pub open spec fn wf(self) -> bool {
        &&& self.buffer.wf()
        &&& ((!self.mask_used@ && !self.buffer.blocked) ==> (all_raw(self.buffer.released_out@)
            && self.ordering_ok()))
    }

    /// A fresh stream: empty buffer, empty histories.
    pub fn new(model_name: String, is_prompt: bool, chat_shape: bool) -> (r: Self)
        ensures
            r.wf(),
            r.model_name == model_name,
            r.is_prompt == is_prompt,
            r.chat_shape == chat_shape,
            r.hist_in@.len() == 0,
            r.emitted@.len() == 0,
            !r.mask_used@,
            !r.degraded@,
            !r.buffer.waiting_for_assessment,
            !r.buffer.blocked,
            !r.buffer.finished,
            r.buffer.released_out@.len() == 0,
            r.buffer.text_buffer@.len() == 0,
            r.buffer.code_buffer@.len() == 0,
    {
        let r = SecurityAssessedStream {
            buffer: StreamBuffer::new(),
            model_name,
            is_prompt,
            chat_shape,
            hist_in: Ghost(Seq::empty()),
            emitted: Ghost(Seq::empty()),
            mask_used: Ghost(false),
            degraded: Ghost(false),
        };
        proof {
            assert(r.hist_in@ =~= r.emitted@ + raw_views(r.buffer.released_out@) + views(
                r.buffer.pending_out@,
            ) + views(r.buffer.accum_out@));
        }
        r
    }

    /// Ingests one upstream chunk. Its parsed content goes through the
    /// fence parser into the buffers; the raw bytes are held back — with
    /// the chunks already held if an inspection is in flight, otherwise in
    /// the accumulation bucket. When no inspection is in flight and a
    /// trigger fires, the accumulated chunks (this one included) become the
    /// held range and the returned envelope is to be submitted for
    /// inspection: at most one inspection is ever in flight. Nothing is
    /// emitted or released by ingestion.
    pub fn process_stream_chunk(&mut self, chunk: Vec<u8>) -> (r: Option<Content>)
        requires
            old(self).wf(),
            !old(self).buffer.blocked,
            !old(self).buffer.finished,
        ensures
            final(self).wf(),
            final(self).hist_in@ == old(self).hist_in@.push(chunk@),
            final(self).emitted == old(self).emitted,
            final(self).buffer.released_out == old(self).buffer.released_out,
            final(self).mask_used == old(self).mask_used,
            final(self).degraded == old(self).degraded,
            final(self).model_name == old(self).model_name,
            final(self).is_prompt == old(self).is_prompt,
            final(self).chat_shape == old(self).chat_shape,
            !final(self).buffer.blocked,
            !final(self).buffer.finished,
            final(self).buffer.last_assessed_text_pos == old(self).buffer.last_assessed_text_pos,
            final(self).buffer.last_assessed_code_pos == old(self).buffer.last_assessed_code_pos,
            final(self).buffer.parser() == (match content_of(old(self).chat_shape, chunk@) {
                Some(c) => parse_piece(old(self).buffer.parser(), c),
                None => old(self).buffer.parser(),
            }),
            old(self).buffer.waiting_for_assessment ==> (r is None
                && final(self).buffer.waiting_for_assessment
                && final(self).buffer.pending_out@ == old(self).buffer.pending_out@.push(chunk)
                && final(self).buffer.accum_out == old(self).buffer.accum_out),
            r is Some ==> (!old(self).buffer.waiting_for_assessment && final(self).buffer.waiting_for_assessment),
            !old(self).buffer.waiting_for_assessment ==> (r is Some <==> should_trigger_with(
                final(self).buffer,
                old(self).buffer.last_was_boundary,
            )),
            (!old(self).buffer.waiting_for_assessment && r is Some) ==> (final(self).buffer.pending_out@ == old(self).buffer.accum_out@.push(chunk) && final(self).buffer.accum_out@.len() == 0),
            (!old(self).buffer.waiting_for_assessment && r is None) ==> (final(self).buffer.accum_out@ == old(self).buffer.accum_out@.push(chunk) && !final(self).buffer.waiting_for_assessment),
            r matches Some(env) ==> spec_stream_envelope(env, final(self).buffer, old(self).is_prompt),
    {
        let ghost chunk_view = chunk@;
        proof {
            self.hist_in@ = self.hist_in@.push(chunk_view);
        }
        self.buffer.process(&chunk, self.chat_shape);
        if self.buffer.waiting_for_assessment {
            let ghost p0 = self.buffer.pending_out@;
            self.buffer.pending_out.push(chunk);
            proof {
                assert(views(self.buffer.pending_out@) =~= views(p0) + seq![chunk_view]);
                if !self.mask_used@ && !self.buffer.blocked {
                    assert(self.ordering_ok()) by {
                        assert(self.hist_in@ =~= self.emitted@ + raw_views(
                            self.buffer.released_out@,
                        ) + (views(p0) + seq![chunk_view]) + views(self.buffer.accum_out@));
                    }
                }
            }
            None
        } else {
            let ghost a0 = self.buffer.accum_out@;
            self.buffer.accum_out.push(chunk);
            proof {
                assert(views(self.buffer.accum_out@) =~= views(a0) + seq![chunk_view]);
                if !self.mask_used@ && !self.buffer.blocked {
                    assert(self.ordering_ok()) by {
                        assert(self.hist_in@ =~= self.emitted@ + raw_views(
                            self.buffer.released_out@,
                        ) + views(self.buffer.pending_out@) + (views(a0) + seq![chunk_view]));
                    }
                }
            }
            let decision = self.buffer.get_assessable_chunk(self.is_prompt);
            match decision {
                Some(env) => {
                    let mut moved: Vec<Vec<u8>> = Vec::new();
                    core::mem::swap(&mut moved, &mut self.buffer.accum_out);
                    self.buffer.pending_out = moved;
                    self.buffer.waiting_for_assessment = true;
                    proof {
                        assert(views(Seq::<Vec<u8>>::empty()) =~= Seq::<Seq<u8>>::empty());
                        if !self.mask_used@ && !self.buffer.blocked {
                            assert(self.ordering_ok()) by {
                                assert(self.hist_in@ =~= self.emitted@ + raw_views(
                                    self.buffer.released_out@,
                                ) + views(self.buffer.pending_out@) + views(
                                    self.buffer.accum_out@,
                                ));
                            }
                        }
                    }
                    Some(env)
                },
                None => None,
            }
        }
    }

    /// Applies one verdict to the held chunks; requires that an inspection
    /// was in flight, and concludes it. A blocking verdict drops everything
    /// held and yields the terminal blocked record: the stream is blocked
    /// for good. A passing verdict commits the watermarks and releases the
    /// held chunks — replaced by one synthesized record when the verdict
    /// carries a rewrite. A failed inspection releases them anyway
    /// (degraded-open). Watermarks never move backwards.
    pub fn process_assessment_result(
        &mut self,
        outcome: Result<Assessment, SecurityError>,
        created_at: &str,
    ) -> (r: VerdictOutcome)
        requires
            old(self).wf(),
            old(self).buffer.waiting_for_assessment,
            !old(self).buffer.blocked,
        ensures
            final(self).wf(),
            final(self).hist_in == old(self).hist_in,
            final(self).emitted == old(self).emitted,
            final(self).model_name == old(self).model_name,
            final(self).is_prompt == old(self).is_prompt,
            final(self).chat_shape == old(self).chat_shape,
            !final(self).buffer.waiting_for_assessment,
            !final(self).buffer.finished,
            final(self).buffer.last_assessed_text_pos >= old(self).buffer.last_assessed_text_pos,
            final(self).buffer.last_assessed_code_pos >= old(self).buffer.last_assessed_code_pos,
            outcome matches Ok(a) ==> (!a.is_safe ==> (r matches VerdictOutcome::Blocked(rec)
                && rec@ == blocked_record(old(self).chat_shape, created_at@, a)
                && final(self).buffer.blocked
                && final(self).buffer.released_out@.len() == 0
                && final(self).buffer.pending_out@.len() == 0
                && final(self).mask_used == old(self).mask_used)),
            outcome matches Ok(a) ==> ((a.is_safe && !a.is_masked) ==> (r is Released
                && !final(self).buffer.blocked
                && raw_views(final(self).buffer.released_out@) == raw_views(
                old(self).buffer.released_out@,
            ) + views(old(self).buffer.pending_out@)
                && (all_raw(old(self).buffer.released_out@) ==> all_raw(
                final(self).buffer.released_out@,
            ))
                && final(self).buffer.pending_out@.len() == 0
                && final(self).buffer.last_assessed_text_pos == final(self).buffer.text_buffer@.len()
                && final(self).buffer.last_assessed_code_pos == final(self).buffer.code_buffer@.len()
                && final(self).mask_used == old(self).mask_used
                && final(self).degraded == old(self).degraded)),
            outcome matches Ok(a) ==> ((a.is_safe && a.is_masked) ==> (r is MaskedSubstituted
                && !final(self).buffer.blocked
                && final(self).buffer.released_out@.len() == old(self).buffer.released_out@.len()
                + 1
                && (final(self).buffer.released_out@.last() matches OutChunk::Synthesized(s)
                && s@ == masked_record(
                old(self).chat_shape,
                old(self).model_name@,
                created_at@,
                a.final_content@,
            ))
                && final(self).buffer.pending_out@.len() == 0
                && final(self).mask_used@)),
            (outcome is Err) ==> (r is DegradedReleased
                && !final(self).buffer.blocked
                && raw_views(final(self).buffer.released_out@) == raw_views(
                old(self).buffer.released_out@,
            ) + views(old(self).buffer.pending_out@)
                && (all_raw(old(self).buffer.released_out@) ==> all_raw(
                final(self).buffer.released_out@,
            ))
                && final(self).buffer.pending_out@.len() == 0
                && final(self).mask_used == old(self).mask_used
                && final(self).degraded@),
    {
        match outcome {
            Ok(a) => {
                if !a.is_safe {
                    let message = format_security_violation_message(&a);
                    let rec = if self.chat_shape {
                        encode_chat_record(
                            "security-filter",
                            created_at,
                            "assistant",
                            message.as_str(),
                            true,
                        )
                    } else {
                        encode_generate_record(
                            "security-filter",
                            created_at,
                            message.as_str(),
                            true,
                        )
                    };
                    self.buffer.pending_out = Vec::new();
                    self.buffer.released_out = Vec::new();
                    self.buffer.waiting_for_assessment = false;
                    self.buffer.blocked = true;
                    VerdictOutcome::Blocked(rec)
                } else if a.is_masked {
                    self.buffer.commit(true);
                    self.buffer.pending_out = Vec::new();
                    let rec = if self.chat_shape {
                        encode_chat_record(
                            self.model_name.as_str(),
                            created_at,
                            "assistant",
                            a.final_content.as_str(),
                            false,
                        )
                    } else {
                        encode_generate_record(
                            self.model_name.as_str(),
                            created_at,
                            a.final_content.as_str(),
                            false,
                        )
                    };
                    self.buffer.released_out.push(OutChunk::Synthesized(rec));
                    self.buffer.waiting_for_assessment = false;
                    proof {
                        self.mask_used@ = true;
                    }
                    VerdictOutcome::MaskedSubstituted
                } else {
                    self.buffer.commit(true);
                    let ghost rel_a = self.buffer.released_out@;
                    let ghost pend_a = self.buffer.pending_out@;
                    self.release_pending();
                    proof {
                        if !self.mask_used@ && !self.buffer.blocked {
                            assert(all_raw(self.buffer.released_out@));
                            assert(self.ordering_ok()) by {
                                assert(raw_views(self.buffer.released_out@) == raw_views(rel_a)
                                    + views(pend_a));
                                assert(views(self.buffer.pending_out@)
                                    =~= Seq::<Seq<u8>>::empty());
                                assert(views(self.buffer.accum_out@) =~= Seq::<Seq<u8>>::empty());
                                assert(self.hist_in@ =~= self.emitted@ + raw_views(
                                    self.buffer.released_out@,
                                ) + views(self.buffer.pending_out@) + views(
                                    self.buffer.accum_out@,
                                ));
                            }
                        }
                    }
                    VerdictOutcome::Released
                }
            },
            Err(_) => {
                self.buffer.commit(true);
                let ghost rel_a = self.buffer.released_out@;
                let ghost pend_a = self.buffer.pending_out@;
                self.release_pending();
                proof {
                    if !self.mask_used@ && !self.buffer.blocked {
                        assert(all_raw(self.buffer.released_out@));
                        assert(self.ordering_ok()) by {
                            assert(raw_views(self.buffer.released_out@) == raw_views(rel_a)
                                + views(pend_a));
                            assert(views(self.buffer.pending_out@) =~= Seq::<Seq<u8>>::empty());
                            assert(views(self.buffer.accum_out@) =~= Seq::<Seq<u8>>::empty());
                            assert(self.hist_in@ =~= self.emitted@ + raw_views(
                                self.buffer.released_out@,
                            ) + views(self.buffer.pending_out@) + views(self.buffer.accum_out@));
                        }
                    }
                    self.degraded@ = true;
                }
                VerdictOutcome::DegradedReleased
            },
        }
    }

    /// Moves every held chunk to the released output, in order, and
    /// concludes the inspection.
    fn release_pending(&mut self)
        requires
            old(self).buffer.wf(),
            old(self).buffer.waiting_for_assessment,
            !old(self).buffer.blocked,
            !old(self).buffer.finished,
        ensures
            final(self).buffer.wf(),
            raw_views(final(self).buffer.released_out@) == raw_views(old(self).buffer.released_out@)
                + views(old(self).buffer.pending_out@),
            all_raw(old(self).buffer.released_out@) ==> all_raw(final(self).buffer.released_out@),
            final(self).buffer.pending_out@.len() == 0,
            !final(self).buffer.waiting_for_assessment,
            !final(self).buffer.blocked,
            !final(self).buffer.finished,
            final(self).buffer.accum_out == old(self).buffer.accum_out,
            final(self).buffer.text_buffer == old(self).buffer.text_buffer,
            final(self).buffer.code_buffer == old(self).buffer.code_buffer,
            final(self).buffer.in_code_block == old(self).buffer.in_code_block,
            final(self).buffer.pending_ticks == old(self).buffer.pending_ticks,
            final(self).buffer.skip_language_tag == old(self).buffer.skip_language_tag,
            final(self).buffer.last_assessed_text_pos == old(self).buffer.last_assessed_text_pos,
            final(self).buffer.last_assessed_code_pos == old(self).buffer.last_assessed_code_pos,
            final(self).buffer.last_was_boundary == old(self).buffer.last_was_boundary,
            final(self).hist_in == old(self).hist_in,
            final(self).emitted == old(self).emitted,
            final(self).mask_used == old(self).mask_used,
            final(self).degraded == old(self).degraded,
            final(self).model_name == old(self).model_name,
            final(self).is_prompt == old(self).is_prompt,
            final(self).chat_shape == old(self).chat_shape,
    {
        let mut local: Vec<Vec<u8>> = Vec::new();
        core::mem::swap(&mut local, &mut self.buffer.pending_out);
        let ghost rel0 = self.buffer.released_out@;
        let ghost pend0 = local@;
        while local.len() > 0
            invariant
                raw_views(self.buffer.released_out@) + views(local@) == raw_views(rel0) + views(
                    pend0,
                ),
                all_raw(rel0) ==> all_raw(self.buffer.released_out@),
                self.buffer.pending_out@.len() == 0,
                self.buffer.accum_out@.len() == 0,
                self.buffer.last_assessed_text_pos <= self.buffer.text_buffer@.len(),
                self.buffer.last_assessed_code_pos <= self.buffer.code_buffer@.len(),
                self.buffer.pending_ticks <= 2,
                self.buffer.accum_out == old(self).buffer.accum_out,
                self.buffer.text_buffer == old(self).buffer.text_buffer,
                self.buffer.code_buffer == old(self).buffer.code_buffer,
                self.buffer.in_code_block == old(self).buffer.in_code_block,
                self.buffer.pending_ticks == old(self).buffer.pending_ticks,
                self.buffer.skip_language_tag == old(self).buffer.skip_language_tag,
                self.buffer.last_assessed_text_pos == old(self).buffer.last_assessed_text_pos,
                self.buffer.last_assessed_code_pos == old(self).buffer.last_assessed_code_pos,
                self.buffer.last_was_boundary == old(self).buffer.last_was_boundary,
                self.buffer.waiting_for_assessment,
                !self.buffer.blocked,
                !self.buffer.finished,
                self.hist_in == old(self).hist_in,
                self.emitted == old(self).emitted,
                self.mask_used == old(self).mask_used,
                self.degraded == old(self).degraded,
                self.model_name == old(self).model_name,
                self.is_prompt == old(self).is_prompt,
                self.chat_shape == old(self).chat_shape,
            decreases local@.len(),
        {
            let ghost l0 = local@;
            let ghost r0 = self.buffer.released_out@;
            let c = local.remove(0);
            self.buffer.released_out.push(OutChunk::Raw(c));
            proof {
                lemma_raw_views_push(r0, self.buffer.released_out@.last());
                assert(views(l0) =~= seq![l0[0]@] + views(l0.drop_first()));
                assert(local@ =~= l0.drop_first());
                assert(raw_views(self.buffer.released_out@) + views(local@) =~= raw_views(r0)
                    + views(l0));
                assert forall|i: int|
                    0 <= i < self.buffer.released_out@.len() implies (all_raw(rel0)
                    ==> #[trigger] self.buffer.released_out@[i] is Raw) by {
                    if i < r0.len() {
                        assert(self.buffer.released_out@[i] == r0[i]);
                    }
                }
            }
        }
        self.buffer.waiting_for_assessment = false;
        proof {
            assert(views(local@) =~= Seq::<Seq<u8>>::empty());
            assert(raw_views(self.buffer.released_out@) =~= raw_views(rel0) + views(pend0));
        }
    }

    /// Handles the end of the upstream stream; no inspection may be in
    /// flight. If unassessed content remains, one final envelope is
    /// returned for inspection, the watermarks advance over it, and the
    /// accumulated chunks become the held range. Otherwise the stream is
    /// finished: the accumulated chunks (none of which carried unassessed
    /// content) are released for draining.
    pub fn process_stream_end(&mut self) -> (r: Option<Content>)
        requires
            old(self).wf(),
            !old(self).buffer.waiting_for_assessment,
            !old(self).buffer.blocked,
            !old(self).buffer.finished,
        ensures
            final(self).wf(),
            final(self).hist_in == old(self).hist_in,
            final(self).emitted == old(self).emitted,
            final(self).mask_used == old(self).mask_used,
            final(self).degraded == old(self).degraded,
            final(self).model_name == old(self).model_name,
            final(self).is_prompt == old(self).is_prompt,
            final(self).chat_shape == old(self).chat_shape,
            !final(self).buffer.blocked,
            final(self).buffer.last_assessed_text_pos >= old(self).buffer.last_assessed_text_pos,
            final(self).buffer.last_assessed_code_pos >= old(self).buffer.last_assessed_code_pos,
            r is Some <==> old(self).buffer.has_new_content(),
            r matches Some(env) ==> (spec_stream_envelope(env, old(self).buffer, old(self).is_prompt)
                && final(self).buffer.waiting_for_assessment
                && !final(self).buffer.finished
                && final(self).buffer.pending_out@ == old(self).buffer.accum_out@
                && final(self).buffer.accum_out@.len() == 0
                && final(self).buffer.released_out == old(self).buffer.released_out),
            r is None ==> (final(self).buffer.finished
                && !final(self).buffer.waiting_for_assessment
                && raw_views(final(self).buffer.released_out@) == raw_views(
                old(self).buffer.released_out@,
            ) + views(old(self).buffer.accum_out@)
                && (all_raw(old(self).buffer.released_out@) ==> all_raw(
                final(self).buffer.released_out@,
            ))
                && final(self).buffer.pending_out@.len() == 0
                && final(self).buffer.accum_out@.len() == 0),
    {
        let text_len = self.buffer.text_buffer.as_str().unicode_len();
        let code_len = self.buffer.code_buffer.as_str().unicode_len();
        let has_new = text_len > self.buffer.last_assessed_text_pos || code_len
            > self.buffer.last_assessed_code_pos;
        if has_new {
            let env = self.buffer.prepare_assessment_content(self.is_prompt);
            self.buffer.last_assessed_text_pos = text_len;
            self.buffer.last_assessed_code_pos = code_len;
            let mut moved: Vec<Vec<u8>> = Vec::new();
            core::mem::swap(&mut moved, &mut self.buffer.accum_out);
            self.buffer.pending_out = moved;
            self.buffer.waiting_for_assessment = true;
            proof {
                if !self.mask_used@ && !self.buffer.blocked {
                    assert(self.ordering_ok()) by {
                        assert(views(Seq::<Vec<u8>>::empty()) =~= Seq::<Seq<u8>>::empty());
                        assert(self.hist_in@ =~= self.emitted@ + raw_views(
                            self.buffer.released_out@,
                        ) + views(self.buffer.pending_out@) + views(self.buffer.accum_out@));
                    }
                }
            }
            Some(env)
        } else {
            self.drain_accum();
            self.buffer.finished = true;
            None
        }
    }

    /// Moves the accumulated chunks to the released output, in order.
    fn drain_accum(&mut self)
        requires
            old(self).wf(),
            !old(self).buffer.waiting_for_assessment,
            !old(self).buffer.blocked,
            !old(self).buffer.finished,
        ensures
            final(self).wf(),
            raw_views(final(self).buffer.released_out@) == raw_views(old(self).buffer.released_out@)
                + views(old(self).buffer.accum_out@),
            all_raw(old(self).buffer.released_out@) ==> all_raw(final(self).buffer.released_out@),
            final(self).buffer.accum_out@.len() == 0,
            final(self).buffer.pending_out@.len() == 0,
            !final(self).buffer.waiting_for_assessment,
            !final(self).buffer.blocked,
            !final(self).buffer.finished,
            final(self).buffer.text_buffer == old(self).buffer.text_buffer,
            final(self).buffer.code_buffer == old(self).buffer.code_buffer,
            final(self).buffer.last_assessed_text_pos == old(self).buffer.last_assessed_text_pos,
            final(self).buffer.last_assessed_code_pos == old(self).buffer.last_assessed_code_pos,
            final(self).hist_in == old(self).hist_in,
            final(self).emitted == old(self).emitted,
            final(self).mask_used == old(self).mask_used,
            final(self).degraded == old(self).degraded,
            final(self).model_name == old(self).model_name,
            final(self).is_prompt == old(self).is_prompt,
            final(self).chat_shape == old(self).chat_shape,
    {
        let mut local: Vec<Vec<u8>> = Vec::new();
        core::mem::swap(&mut local, &mut self.buffer.accum_out);
        let ghost rel0 = self.buffer.released_out@;
        let ghost acc0 = local@;
        while local.len() > 0
            invariant
                raw_views(self.buffer.released_out@) + views(local@) == raw_views(rel0) + views(
                    acc0,
                ),
                all_raw(rel0) ==> all_raw(self.buffer.released_out@),
                self.buffer.pending_out@.len() == 0,
                self.buffer.accum_out@.len() == 0,
                self.buffer.last_assessed_text_pos <= self.buffer.text_buffer@.len(),
                self.buffer.last_assessed_code_pos <= self.buffer.code_buffer@.len(),
                self.buffer.pending_ticks <= 2,
                self.buffer.text_buffer == old(self).buffer.text_buffer,
                self.buffer.code_buffer == old(self).buffer.code_buffer,
                self.buffer.in_code_block == old(self).buffer.in_code_block,
                self.buffer.pending_ticks == old(self).buffer.pending_ticks,
                self.buffer.skip_language_tag == old(self).buffer.skip_language_tag,
                self.buffer.last_assessed_text_pos == old(self).buffer.last_assessed_text_pos,
                self.buffer.last_assessed_code_pos == old(self).buffer.last_assessed_code_pos,
                self.buffer.last_was_boundary == old(self).buffer.last_was_boundary,
                !self.buffer.waiting_for_assessment,
                !self.buffer.blocked,
                !self.buffer.finished,
                self.hist_in == old(self).hist_in,
                self.emitted == old(self).emitted,
                self.mask_used == old(self).mask_used,
                self.degraded == old(self).degraded,
                self.model_name == old(self).model_name,
                self.is_prompt == old(self).is_prompt,
                self.chat_shape == old(self).chat_shape,
            decreases local@.len(),
        {
            let ghost l0 = local@;
            let ghost r0 = self.buffer.released_out@;
            let c = local.remove(0);
            self.buffer.released_out.push(OutChunk::Raw(c));
            proof {
                lemma_raw_views_push(r0, self.buffer.released_out@.last());
                assert(views(l0) =~= seq![l0[0]@] + views(l0.drop_first()));
                assert(local@ =~= l0.drop_first());
                assert(raw_views(self.buffer.released_out@) + views(local@) =~= raw_views(r0)
                    + views(l0));
                assert forall|i: int|
                    0 <= i < self.buffer.released_out@.len() implies (all_raw(rel0)
                    ==> #[trigger] self.buffer.released_out@[i] is Raw) by {
                    if i < r0.len() {
                        assert(self.buffer.released_out@[i] == r0[i]);
                    }
                }
            }
        }
        proof {
            assert(views(local@) =~= Seq::<Seq<u8>>::empty());
            assert(raw_views(self.buffer.released_out@) =~= raw_views(rel0) + views(acc0));
            if !self.mask_used@ && !self.buffer.blocked {
                assert(self.ordering_ok()) by {
                    assert(views(self.buffer.pending_out@) =~= Seq::<Seq<u8>>::empty());
                    assert(views(self.buffer.accum_out@) =~= Seq::<Seq<u8>>::empty());
                    assert(views(old(self).buffer.pending_out@) =~= Seq::<Seq<u8>>::empty());
                    assert(self.hist_in@ =~= self.emitted@ + raw_views(self.buffer.released_out@)
                        + views(self.buffer.pending_out@) + views(self.buffer.accum_out@));
                }
            }
        }
    }

    /// Hands out the next released chunk, in release order; a raw chunk is
    /// recorded in the emitted history. A blocked stream has nothing to
    /// hand out.
    pub fn get_next_chunk(&mut self) -> (r: Option<OutChunk>)
        requires
            old(self).wf(),
        ensures
            final(self).wf(),
            final(self).hist_in == old(self).hist_in,
            final(self).mask_used == old(self).mask_used,
            final(self).degraded == old(self).degraded,
            old(self).buffer.released_out@.len() == 0 ==> (r is None && *final(self) == *old(self)),
            old(self).buffer.released_out@.len() > 0 ==> (r == Some(
                old(self).buffer.released_out@[0],
            ) && final(self).buffer.released_out@ == old(self).buffer.released_out@.drop_first()
                && final(self).emitted@ == (match old(self).buffer.released_out@[0] {
                OutChunk::Raw(v) => old(self).emitted@.push(v@),
                OutChunk::Synthesized(_) => old(self).emitted@,
            })),
            old(self).buffer.blocked ==> r is None,
    {
        if self.buffer.released_out.len() == 0 {
            return None;
        }
        let ghost r0 = self.buffer.released_out@;
        let c = self.buffer.released_out.remove(0);
        proof {
            if c is Raw {
                let v = c->Raw_0;
                self.emitted@ = self.emitted@.push(v@);
            }
            lemma_raw_views_first(r0);
            assert(self.buffer.released_out@ =~= r0.drop_first());
            if !self.mask_used@ && !self.buffer.blocked {
                assert(all_raw(self.buffer.released_out@)) by {
                    assert forall|i: int|
                        0 <= i < self.buffer.released_out@.len() implies #[trigger] self.buffer.released_out@[i] is Raw by {
                        assert(self.buffer.released_out@[i] == r0[i + 1]);
                    }
                }
                assert(r0[0] is Raw);
                assert(self.ordering_ok()) by {
                    assert(self.hist_in@ =~= self.emitted@ + raw_views(self.buffer.released_out@)
                        + views(self.buffer.pending_out@) + views(self.buffer.accum_out@));
                }
            }
        }
        Some(c)
    }

    /// Whether the stream is over: upstream ended and everything released
    /// has been handed out.
    pub fn is_drained(&self) -> (r: bool)
        ensures
            r == (self.buffer.finished && self.buffer.released_out@.len() == 0),
    {
        self.buffer.finished && self.buffer.released_out.len() == 0
    }
}

proof fn lemma_raw_views_first(s: Seq<OutChunk>)
    requires
        s.len() > 0,
    ensures
        raw_views(s) == (match s[0] {
            OutChunk::Raw(v) => seq![v@],
            OutChunk::Synthesized(_) => Seq::<Seq<u8>>::empty(),
        }) + raw_views(s.drop_first()),
    decreases s.len(),
{
    if s.len() == 1 {
        assert(s.drop_last() =~= Seq::<OutChunk>::empty());
        assert(s.drop_first() =~= Seq::<OutChunk>::empty());
        assert(s.last() == s[0]);
        assert(raw_views(s) =~= (match s[0] {
            OutChunk::Raw(v) => seq![v@],
            OutChunk::Synthesized(_) => Seq::<Seq<u8>>::empty(),
        }) + raw_views(s.drop_first()));
    } else {
        lemma_raw_views_first(s.drop_last());
        assert(s.drop_last()[0] == s[0]);
        assert(s.drop_first().drop_last() =~= s.drop_last().drop_first());
        assert(s.drop_first().last() == s.last());
        assert(raw_views(s.drop_first()) == raw_views(s.drop_first().drop_last()) + (match s.drop_first().last() {
            OutChunk::Raw(v) => seq![v@],
            OutChunk::Synthesized(_) => Seq::<Seq<u8>>::empty(),
        }));
        assert(raw_views(s) =~= (match s[0] {
            OutChunk::Raw(v) => seq![v@],
            OutChunk::Synthesized(_) => Seq::<Seq<u8>>::empty(),
        }) + raw_views(s.drop_first()));
    }
}

/// Ordering law: a stream on which no verdict blocked and no masked
/// substitution happened, once upstream has ended and every released chunk
/// has been handed out, has emitted exactly the chunks it received, in
/// order. The concatenation of client-visible bytes therefore equals the
/// concatenation of upstream bytes.
pub proof fn lemma_stream_ordering(s: SecurityAssessedStream)
    requires
        s.wf(),
        !s.mask_used@,
        !s.buffer.blocked,
        s.buffer.finished,
        s.buffer.released_out@.len() == 0,
    ensures
        s.emitted@ == s.hist_in@,
{
    assert(raw_views(s.buffer.released_out@) =~= Seq::<Seq<u8>>::empty());
    assert(views(s.buffer.pending_out@) =~= Seq::<Seq<u8>>::empty());
    assert(views(s.buffer.accum_out@) =~= Seq::<Seq<u8>>::empty());
    assert(s.emitted@ =~= s.hist_in@);
}

/// Gating law: on a stream with no block and no masked substitution, the
/// chunks already handed out followed by the chunks cleared for emission
/// are exactly a prefix of the chunks received, in order. Everything
/// beyond that prefix is still held back; and chunks enter the cleared
/// prefix only through `process_assessment_result` (a verdict) or through
/// the end-of-stream drain, as the ensures of the machine's methods state.
/// So every emitted byte was covered by a verdict or belongs to a
/// synthesized envelope.
pub proof fn lemma_emission_is_gated(s: SecurityAssessedStream)
    requires
        s.wf(),
        !s.mask_used@,
        !s.buffer.blocked,
    ensures
        s.emitted@ + raw_views(s.buffer.released_out@) == s.hist_in@.take(
            s.emitted@.len() + raw_views(s.buffer.released_out@).len() as int,
        ),
{
    let front = s.emitted@ + raw_views(s.buffer.released_out@);
    assert(s.hist_in@ == front + (views(s.buffer.pending_out@) + views(s.buffer.accum_out@)))
        by {
        assert(s.hist_in@ =~= front + (views(s.buffer.pending_out@) + views(
            s.buffer.accum_out@,
        )));
    }
    assert(s.hist_in@.take(front.len() as int) =~= front);
}

/// Block-terminality law: once a stream is blocked, nothing is held and
/// nothing is left to hand out — every later poll yields nothing.
pub proof fn lemma_block_terminal(s: SecurityAssessedStream)
    requires
        s.wf(),
        s.buffer.blocked,
    ensures
        s.buffer.released_out@.len() == 0,
        s.buffer.pending_out@.len() == 0,
        s.buffer.accum_out@.len() == 0,
        !s.buffer.waiting_for_assessment,
{
}

} // verus!
