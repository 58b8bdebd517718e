//! The decisions of the IBus input engine: how each key event changes the
//! composition state, whether the key is consumed, and which texts the
//! engine sends back to the IBus daemon.

use vstd::prelude::*;
use vstd::string::*;
use vstd::utf8::encode_utf8;
use crate::engine::PhoneticEngine;
use crate::translate::spec_translate;

verus! {

/// The IBus attribute type of an underline.
pub const ATTR_TYPE_UNDERLINE: u32 = 1;

/// The IBus attribute value of a single underline.
pub const ATTR_UNDERLINE_SINGLE: u32 = 1;

/// The modifier bit that marks a key release.
pub const RELEASE_MASK: u32 = 0x4000_0000;

/// The modifier bit of the Control key.
pub const CONTROL_MASK: u32 = 4;

/// The modifier bit of the Alt (Mod1) key.
pub const ALT_MASK: u32 = 8;

/// The keyval of the space bar.
pub const KEY_SPACE: u32 = 0x20;

/// The keyval of Backspace.
pub const KEY_BACKSPACE: u32 = 0xFF08;

/// The keyval of Return.
pub const KEY_RETURN: u32 = 0xFF0D;

/// The keyval of the keypad Enter.
pub const KEY_KP_ENTER: u32 = 0xFF8D;

/// The object path at which the engine is served.
pub open spec fn engine_path() -> Seq<char> {
    "/org/freedesktop/IBus/Engine/openbn"@
}

/// A text attribute in the IBus wire format.
#[derive(Debug, Clone, Copy, PartialEq, Eq)]
pub struct IBusAttribute {
    pub attr_type: u32,
    pub value: u32,
    pub start_index: i32,
    pub end_index: i32,
}

/// A text with its attributes, as IBus sends it.
#[derive(Debug)]
pub struct IBusText {
    pub text: String,
    pub attributes: Vec<IBusAttribute>,
}

impl View for IBusText {
    type V = (Seq<char>, Seq<IBusAttribute>);

    open spec fn view(&self) -> (Seq<char>, Seq<IBusAttribute>) {
        (self.text@, self.attributes@)
    }
}

/// `t` with no attributes.
pub open spec fn plain_text(t: Seq<char>) -> (Seq<char>, Seq<IBusAttribute>) {
    (t, Seq::empty())
}

/// A single underline over the whole of `t`, whose end is counted in UTF-8
/// bytes.
pub open spec fn whole_underline(t: Seq<char>) -> IBusAttribute {
    IBusAttribute {
        attr_type: ATTR_TYPE_UNDERLINE,
        value: ATTR_UNDERLINE_SINGLE,
        start_index: 0,
        end_index: (encode_utf8(t).len() as usize) as i32,
    }
}

/// `t` underlined as a whole, as a composition is shown; an empty text has no
/// attribute.
pub open spec fn styled_text(t: Seq<char>) -> (Seq<char>, Seq<IBusAttribute>) {
    (
        t,
        if t.len() == 0 {
            Seq::empty()
        } else {
            seq![whole_underline(t)]
        },
    )
}

impl IBusText {
    /// `text` with no attributes.
    pub fn plain(text: String) -> (r: Self)
        ensures
            r@ == plain_text(text@),
    {
        let r = IBusText { text, attributes: Vec::new() };
        assert(r@ =~= plain_text(text@));
        r
    }

    /// `text` underlined as a whole, as the composition is shown.
    pub fn styled(text: String) -> (r: Self)
        ensures
            r@ == styled_text(text@),
    {
        let mut attributes: Vec<IBusAttribute> = Vec::new();
        if !text.as_str().is_empty() {
            let bytes = text.as_str().len();
            attributes.push(
                IBusAttribute {
                    attr_type: ATTR_TYPE_UNDERLINE,
                    value: ATTR_UNDERLINE_SINGLE,
                    start_index: 0,
                    end_index: bytes as i32,
                },
            );
        }
        let r = IBusText { text, attributes };
        assert(r@.1 =~= styled_text(text@).1);
        r
    }
}

/// A signal that the engine sends to the IBus daemon.
#[derive(Debug)]
pub enum EngineSignal {
    /// Show `text` as the composition, with the cursor at `cursor_pos`.
    UpdatePreeditText { text: IBusText, cursor_pos: u32, visible: bool },
    /// Insert `text` into the application.
    CommitText { text: IBusText },
}

/// What a signal says, with its texts taken by their views.
pub enum SignalView {
    UpdatePreeditText { text: (Seq<char>, Seq<IBusAttribute>), cursor_pos: u32, visible: bool },
    CommitText { text: (Seq<char>, Seq<IBusAttribute>) },
}

impl View for EngineSignal {
    type V = SignalView;

    open spec fn view(&self) -> SignalView {
        match self {
            EngineSignal::UpdatePreeditText { text, cursor_pos, visible } => {
                SignalView::UpdatePreeditText {
                    text: text@,
                    cursor_pos: *cursor_pos,
                    visible: *visible,
                }
            },
            EngineSignal::CommitText { text } => SignalView::CommitText { text: text@ },
        }
    }
}

/// The signals, each taken by its view.
pub open spec fn signals_view(s: Seq<EngineSignal>) -> Seq<SignalView> {
    s.map_values(|e: EngineSignal| e@)
}

/// The signal that shows the translation of `buffer` as the composition,
/// with the cursor after its last character.
pub open spec fn preedit_of(buffer: Seq<char>, visible: bool) -> SignalView {
    SignalView::UpdatePreeditText {
        text: styled_text(spec_translate(buffer)),
        cursor_pos: spec_translate(buffer).len() as u32,
        visible,
    }
}

/// The signal that hides the composition.
pub open spec fn hidden_preedit() -> SignalView {
    SignalView::UpdatePreeditText { text: styled_text(Seq::empty()), cursor_pos: 0, visible: false }
}

/// The signal that inserts the translation of `buffer`.
pub open spec fn commit_of(buffer: Seq<char>) -> SignalView {
    SignalView::CommitText { text: plain_text(spec_translate(buffer)) }
}

/// The engine's answer to a key event: whether the key was consumed, and
/// the signals to send, in order.
#[derive(Debug)]
pub struct KeyResponse {
    pub handled: bool,
    pub signals: Vec<EngineSignal>,
}

/// How the engine treats a key event.
#[derive(Debug, Clone, Copy, PartialEq, Eq)]
pub enum KeyClass {
    /// A key release: passed through.
    Release,
    /// Control+Space: switches between Bangla and English typing.
    ToggleMode,
    /// Any key in English mode, or with Control or Alt held: passed through.
    Bypass,
    /// Backspace: removes the last typed key, if any.
    Backspace,
    /// Space, Enter, or a punctuation key that ends a word: commits the word.
    CommitWord,
    /// A printable ASCII key that the rules read.
    Character(char),
    /// Any other key: passed through.
    Other,
}

/// The ASCII punctuation keys, other than backtick and period (which the
/// rules read), that end a word.
pub open spec fn is_commit_punctuation(keyval: u32) -> bool {
    &&& (0x21 <= keyval <= 0x2F || 0x3A <= keyval <= 0x40 || 0x5B <= keyval <= 0x60 || 0x7B
        <= keyval <= 0x7E)
    &&& keyval != 0x60
    &&& keyval != 0x2E
}

/// How the engine treats the key `keyval` with modifier bits `state` when
/// Bangla typing is `bangla_mode`.
pub open spec fn spec_classify_key(keyval: u32, state: u32, bangla_mode: bool) -> KeyClass {
    if state & RELEASE_MASK != 0 {
        KeyClass::Release
    } else if state & CONTROL_MASK != 0 && keyval == KEY_SPACE {
        KeyClass::ToggleMode
    } else if !bangla_mode || state & CONTROL_MASK != 0 || state & ALT_MASK != 0 {
        KeyClass::Bypass
    } else if keyval == KEY_BACKSPACE {
        KeyClass::Backspace
    } else if keyval == KEY_SPACE || keyval == KEY_RETURN || keyval == KEY_KP_ENTER
        || is_commit_punctuation(keyval) {
        KeyClass::CommitWord
    } else if 0x20 <= keyval <= 0x7E {
        KeyClass::Character((keyval as u8) as char)
    } else {
        KeyClass::Other
    }
}

/// How the engine treats the key `keyval` with modifier bits `state`.
pub fn classify_key(keyval: u32, state: u32, bangla_mode: bool) -> (c: KeyClass)
    ensures
        c == spec_classify_key(keyval, state, bangla_mode),
{
    let is_punctuation = (0x21 <= keyval && keyval <= 0x2F) || (0x3A <= keyval && keyval <= 0x40)
        || (0x5B <= keyval && keyval <= 0x60) || (0x7B <= keyval && keyval <= 0x7E);
    let is_commit_punctuation = is_punctuation && keyval != 0x60 && keyval != 0x2E;
    if state & RELEASE_MASK != 0 {
        KeyClass::Release
    } else if state & CONTROL_MASK != 0 && keyval == KEY_SPACE {
        KeyClass::ToggleMode
    } else if !bangla_mode || state & CONTROL_MASK != 0 || state & ALT_MASK != 0 {
        KeyClass::Bypass
    } else if keyval == KEY_BACKSPACE {
        KeyClass::Backspace
    } else if keyval == KEY_SPACE || keyval == KEY_RETURN || keyval == KEY_KP_ENTER
        || is_commit_punctuation {
        KeyClass::CommitWord
    } else if 0x20 <= keyval && keyval <= 0x7E {
        KeyClass::Character((keyval as u8) as char)
    } else {
        KeyClass::Other
    }
}

/// A key release is passed through, whatever the key and the mode.
pub proof fn lemma_release_passes(keyval: u32, state: u32, bangla_mode: bool)
    requires
        state & RELEASE_MASK != 0,
    ensures
        spec_classify_key(keyval, state, bangla_mode) == KeyClass::Release,
{
}

/// Control+Space switches the typing mode from either mode, so that pressing
/// it twice gives the mode back.
pub proof fn lemma_control_space_toggles(state: u32, bangla_mode: bool)
    requires
        state & RELEASE_MASK == 0,
        state & CONTROL_MASK != 0,
    ensures
        spec_classify_key(KEY_SPACE, state, bangla_mode) == KeyClass::ToggleMode,
        spec_classify_key(KEY_SPACE, state, !bangla_mode) == KeyClass::ToggleMode,
{
}

/// In English mode every key other than Control+Space is passed through.
pub proof fn lemma_english_mode_passes(keyval: u32, state: u32)
    requires
        !(state & CONTROL_MASK != 0 && keyval == KEY_SPACE),
    ensures
        spec_classify_key(keyval, state, false) == KeyClass::Release || spec_classify_key(
            keyval,
            state,
            false,
        ) == KeyClass::Bypass,
{
}

/// Typing a character and then pressing Backspace gives back the
/// composition as it was before the character.
pub proof fn lemma_backspace_undoes_character(keyval: u32, state: u32, buffer: Seq<char>)
    requires
        spec_classify_key(keyval, state, true) is Character,
    ensures
        spec_classify_key(KEY_BACKSPACE, state, true) == KeyClass::Backspace,
        ({
            let typed = buffer.push(spec_classify_key(keyval, state, true)->0);
            typed.len() > 0 && typed.drop_last() == buffer
        }),
{
    assert(buffer.push(spec_classify_key(keyval, state, true)->0).drop_last() =~= buffer);
}

/// In Bangla mode, with no release, Control or Alt bit set, the printable
/// ASCII keys split in two: letters, digits, the period and the backtick are
/// typed into the composition, and every other printable key (the ASCII
/// punctuation) ends the word and commits it.
pub proof fn lemma_printable_keys(keyval: u32, state: u32)
    requires
        state & RELEASE_MASK == 0,
        state & CONTROL_MASK == 0,
        state & ALT_MASK == 0,
        0x21 <= keyval <= 0x7E,
    ensures
        ({
            let alphanumeric = (0x30 <= keyval <= 0x39) || (0x41 <= keyval <= 0x5A) || (0x61
                <= keyval <= 0x7A);
            if alphanumeric || keyval == 0x2E || keyval == 0x60 {
                spec_classify_key(keyval, state, true) == KeyClass::Character((keyval as u8) as char)
            } else {
                spec_classify_key(keyval, state, true) == KeyClass::CommitWord
            }
        }),
{
}

/// The factory that IBus asks for engines.
pub struct IBusFactory;

impl IBusFactory {
    /// The object path of the engine that IBus asked for by `name`; there is
    /// one engine, whatever the name.
    pub fn create_engine(&self, name: &str) -> (path: &'static str)
        ensures
            path@ == engine_path(),
    {
        "/org/freedesktop/IBus/Engine/openbn"
    }
}

/// The input engine: a phonetic engine driven by IBus key events.
pub struct IBusEngine {
    engine: PhoneticEngine,
}

/// The signals that hide the composition and then insert the translation of
/// `buffer`.
pub open spec fn commit_signals(buffer: Seq<char>) -> Seq<SignalView> {
    seq![hidden_preedit(), commit_of(buffer)]
}

impl IBusEngine {
    /// The Roman keys of the word being composed.
    pub closed spec fn buffer(&self) -> Seq<char> {
        self.engine.buffer()
    }

    /// Whether Bangla typing is on.
    pub closed spec fn mode(&self) -> bool {
        self.engine.mode()
    }

    /// An engine with nothing composed, in Bangla mode.
    pub fn new() -> (e: Self)
        ensures
            e.buffer() == Seq::<char>::empty(),
            e.mode(),
    {
        IBusEngine { engine: PhoneticEngine::new() }
    }

    /// Losing the focus drops the word being composed.
    pub fn focus_out(&mut self)
        ensures
            final(self).buffer() == Seq::<char>::empty(),
            final(self).mode() == old(self).mode(),
    {
        self.engine.clear();
    }

    /// A reset drops the word being composed; if there was one, the
    /// composition is hidden.
    pub fn reset(&mut self) -> (signals: Vec<EngineSignal>)
        ensures
            final(self).buffer() == Seq::<char>::empty(),
            final(self).mode() == old(self).mode(),
            signals_view(signals@) == if old(self).buffer().len() > 0 {
                seq![hidden_preedit()]
            } else {
                Seq::<SignalView>::empty()
            },
    {
        let mut signals: Vec<EngineSignal> = Vec::new();
        if !self.engine.is_empty() {
            self.engine.clear();
            signals.push(hidden_preedit_signal());
        }
        assert(signals_view(signals@) =~= if old(self).buffer().len() > 0 {
            seq![hidden_preedit()]
        } else {
            Seq::<SignalView>::empty()
        });
        signals
    }

    /// Handles a key event: `keyval` is the key, `state` its modifier bits.
    pub fn process_key_event(&mut self, keyval: u32, keycode: u32, state: u32) -> (r: KeyResponse)
        ensures
            ({
                let before = old(self).buffer();
                let after = final(self).buffer();
                let signals = signals_view(r.signals@);
                match spec_classify_key(keyval, state, old(self).mode()) {
                    KeyClass::ToggleMode => {
                        &&& r.handled
                        &&& final(self).mode() == !old(self).mode()
                        &&& after == Seq::<char>::empty()
                        &&& signals == if before.len() > 0 {
                            seq![hidden_preedit()]
                        } else {
                            Seq::<SignalView>::empty()
                        }
                    },
                    KeyClass::Backspace => {
                        &&& final(self).mode() == old(self).mode()
                        &&& if before.len() > 0 {
                            &&& r.handled
                            &&& after == before.drop_last()
                            &&& signals == seq![
                                preedit_of(after, spec_translate(after).len() > 0),
                            ]
                        } else {
                            &&& !r.handled
                            &&& after == before
                            &&& signals == Seq::<SignalView>::empty()
                        }
                    },
                    KeyClass::CommitWord => {
                        &&& !r.handled
                        &&& final(self).mode() == old(self).mode()
                        &&& after == Seq::<char>::empty()
                        &&& signals == if before.len() > 0 {
                            commit_signals(before)
                        } else {
                            Seq::<SignalView>::empty()
                        }
                    },
                    KeyClass::Character(c) => {
                        &&& r.handled
                        &&& final(self).mode() == old(self).mode()
                        &&& after == before.push(c)
                        &&& signals == seq![preedit_of(after, true)]
                    },
                    _ => {
                        &&& !r.handled
                        &&& final(self).mode() == old(self).mode()
                        &&& after == before
                        &&& signals == Seq::<SignalView>::empty()
                    },
                }
            }),
    {
        let class = classify_key(keyval, state, self.engine.is_bangla_mode());
        let mut signals: Vec<EngineSignal> = Vec::new();
        let handled = match class {
            KeyClass::ToggleMode => {
                self.engine.toggle_mode();
                if !self.engine.is_empty() {
                    self.engine.clear();
                    signals.push(hidden_preedit_signal());
                }
                true
            },
            KeyClass::Backspace => {
                if !self.engine.is_empty() {
                    self.engine.pop_char();
                    let preedit = self.engine.translate();
                    let visible = !preedit.as_str().is_empty();
                    signals.push(preedit_signal(preedit, visible));
                    true
                } else {
                    false
                }
            },
            KeyClass::CommitWord => {
                if !self.engine.is_empty() {
                    let committed = self.engine.translate();
                    self.engine.clear();
                    signals.push(hidden_preedit_signal());
                    signals.push(EngineSignal::CommitText { text: IBusText::plain(committed) });
                }
                false
            },
            KeyClass::Character(c) => {
                self.engine.push_char(c);
                let preedit = self.engine.translate();
                signals.push(preedit_signal(preedit, true));
                true
            },
            _ => false,
        };
        let r = KeyResponse { handled, signals };
        proof {
            let v = signals_view(r.signals@);
            if r.signals@.len() == 1 {
                assert(v =~= seq![r.signals@[0]@]);
            } else if r.signals@.len() == 2 {
                assert(v =~= seq![r.signals@[0]@, r.signals@[1]@]);
            } else {
                assert(v =~= Seq::<SignalView>::empty());
            }
        }
        r
    }
}

/// The signal that hides the composition.
fn hidden_preedit_signal() -> (s: EngineSignal)
    ensures
        s@ == hidden_preedit(),
{
    EngineSignal::UpdatePreeditText { text: IBusText::styled(String::new()), cursor_pos: 0, visible: false }
}

/// The signal that shows `preedit` as the composition, with the cursor after
/// its last character.
fn preedit_signal(preedit: String, visible: bool) -> (s: EngineSignal)
    ensures
        s@ == (SignalView::UpdatePreeditText {
            text: styled_text(preedit@),
            cursor_pos: preedit@.len() as u32,
            visible,
        }),
{
    let cursor_pos = preedit.as_str().unicode_len() as u32;
    EngineSignal::UpdatePreeditText { text: IBusText::styled(preedit), cursor_pos, visible }
}

} // verus!
