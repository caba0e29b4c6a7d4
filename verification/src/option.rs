//! Encoders for the two kinds of protocol lines: global mode options and
//! selectable rows.
//!
//! Every line follows one shape: optional display text, a NUL byte, an
//! attribute key, a unit-separator byte, the attribute value, and a final
//! newline.  The exact byte values are a hard wire-format requirement: the
//! front-end silently misparses anything else.

use vstd::prelude::*;

verus! {

/// The characters of one protocol line: `text`, then the NUL separator,
/// `key`, the unit separator, `value`, and a terminating newline.  A line
/// without display text starts directly at the NUL byte.
pub open spec fn spec_option_line(
    text: Option<Seq<char>>,
    key: Seq<char>,
    value: Seq<char>,
) -> Seq<char> {
    (match text {
        Some(t) => t,
        None => Seq::<char>::empty(),
    }) + "\0"@ + key + "\x1f"@ + value + "\n"@
}

/// The canonical lowercase text of a boolean attribute value.
pub open spec fn spec_bool_text(b: bool) -> Seq<char> {
    if b {
        "true"@
    } else {
        "false"@
    }
}

fn bool_text(b: bool) -> (r: &'static str)
    ensures
        r@ == spec_bool_text(b),
{
    if b {
        "true"
    } else {
        "false"
    }
}

/// The rendered line for one optional free-text mode option, or nothing
/// when the field is absent.
pub open spec fn spec_text_option(key: Seq<char>, field: Option<String>) -> Seq<char> {
    match field {
        Some(v) => spec_option_line(None, key, v@),
        None => Seq::<char>::empty(),
    }
}

/// The rendered line for one optional boolean mode option, or nothing
/// when the field is absent.
pub open spec fn spec_bool_option(key: Seq<char>, field: Option<bool>) -> Seq<char> {
    match field {
        Some(b) => spec_option_line(None, key, spec_bool_text(b)),
        None => Seq::<char>::empty(),
    }
}

/// Renders one protocol line from its three parts.
pub fn option_line(text: Option<&str>, key: &str, value: &str) -> (r: String)
    ensures
        r@ == spec_option_line(
            match text {
                Some(t) => Some(t@),
                None => None,
            },
            key@,
            value@,
        ),
{
    let mut out: String = match text {
        Some(t) => String::from_str(t),
        None => String::new(),
    };
    out.append("\0");
    out.append(key);
    out.append("\x1f");
    out.append(value);
    out.append("\n");
    out
}

/// A batch of global display settings for one render cycle.  Every field
/// starts absent; a field that stays absent contributes no line.
pub struct ModeOption {
    /// Update the prompt text.
    pub prompt: Option<String>,
    /// Update the message text.
    pub message: Option<String>,
    /// If `true`, renders markup in the rows.
    pub markup_rows: Option<bool>,
    /// Only accept listed entries, ignore custom input.
    pub no_custom: Option<bool>,
    /// Mark rows as urgent.
    pub urgent: Option<String>,
    /// Mark rows as active.
    pub active: Option<String>,
    /// Set the delimiter for the next rows.
    pub delim: Option<String>,
}

/// Holds when no mode-option field is set.
pub open spec fn spec_mode_is_empty(m: ModeOption) -> bool {
    &&& m.prompt is None
    &&& m.message is None
    &&& m.markup_rows is None
    &&& m.no_custom is None
    &&& m.urgent is None
    &&& m.active is None
    &&& m.delim is None
}

/// The option lines of a mode-option block, one per present field, in the
/// fixed field order the protocol requires: prompt, message, markup-rows,
/// no-custom, urgent, active, delim.
pub open spec fn spec_mode_lines(m: ModeOption) -> Seq<char> {
    spec_text_option("prompt"@, m.prompt) + spec_text_option("message"@, m.message)
        + spec_bool_option("markup-rows"@, m.markup_rows) + spec_bool_option(
        "no-custom"@,
        m.no_custom,
    ) + spec_text_option("urgent"@, m.urgent) + spec_text_option("active"@, m.active)
        + spec_text_option("delim"@, m.delim)
}

/// The full rendering of a mode-option block: its option lines followed by
/// one terminating newline, which is appended even when no field is set.
pub open spec fn spec_mode_render(m: ModeOption) -> Seq<char> {
    spec_mode_lines(m) + "\n"@
}

impl Default for ModeOption {
    /// A block with every field absent.
    fn default() -> (r: ModeOption)
        ensures
            spec_mode_is_empty(r),
    {
        ModeOption {
            prompt: None,
            message: None,
            markup_rows: None,
            no_custom: None,
            urgent: None,
            active: None,
            delim: None,
        }
    }
}

impl ModeOption {
    /// Holds exactly when no field has been set; the assembler skips the
    /// whole block in that case.
    pub fn is_empty(&self) -> (r: bool)
        ensures
            r == spec_mode_is_empty(*self),
    {
        self.prompt.is_none() && self.message.is_none() && self.markup_rows.is_none()
            && self.no_custom.is_none() && self.urgent.is_none() && self.active.is_none()
            && self.delim.is_none()
    }

    /// Sets the prompt text, leaving every other field as it was.
    pub fn set_prompt(&mut self, prompt: String)
        ensures
            *final(self) == (ModeOption { prompt: Some(prompt), ..*old(self) }),
    {
        self.prompt = Some(prompt);
    }

    /// Sets the message text, leaving every other field as it was.
    pub fn set_message(&mut self, message: String)
        ensures
            *final(self) == (ModeOption { message: Some(message), ..*old(self) }),
    {
        self.message = Some(message);
    }

    /// Sets whether rows are rendered as markup, leaving every other field
    /// as it was.
    pub fn set_markup_rows(&mut self, markup_rows: bool)
        ensures
            *final(self) == (ModeOption { markup_rows: Some(markup_rows), ..*old(self) }),
    {
        self.markup_rows = Some(markup_rows);
    }

    /// Sets whether custom input is refused, leaving every other field as
    /// it was.
    pub fn set_no_custom(&mut self, no_custom: bool)
        ensures
            *final(self) == (ModeOption { no_custom: Some(no_custom), ..*old(self) }),
    {
        self.no_custom = Some(no_custom);
    }

    /// Sets the urgent marker, leaving every other field as it was.
    pub fn set_urgent(&mut self, urgent: String)
        ensures
            *final(self) == (ModeOption { urgent: Some(urgent), ..*old(self) }),
    {
        self.urgent = Some(urgent);
    }

    /// Sets the active marker, leaving every other field as it was.
    pub fn set_active(&mut self, active: String)
        ensures
            *final(self) == (ModeOption { active: Some(active), ..*old(self) }),
    {
        self.active = Some(active);
    }

    /// Sets the row delimiter, leaving every other field as it was.
    pub fn set_delim(&mut self, delim: String)
        ensures
            *final(self) == (ModeOption { delim: Some(delim), ..*old(self) }),
    {
        self.delim = Some(delim);
    }

    /// Renders the block: one line per present field in the fixed protocol
    /// order, then one terminating newline.
    pub fn render(&self) -> (r: String)
        ensures
            r@ == spec_mode_render(*self),
    {
        let mut out = String::new();
        if let Some(prompt) = &self.prompt {
            let line = option_line(None, "prompt", prompt.as_str());
            out.append(line.as_str());
        }
        assert(out@ =~= spec_text_option("prompt"@, self.prompt));
        if let Some(message) = &self.message {
            let line = option_line(None, "message", message.as_str());
            out.append(line.as_str());
        }
        assert(out@ =~= spec_text_option("prompt"@, self.prompt) + spec_text_option(
            "message"@,
            self.message,
        ));
        if let Some(markup_rows) = self.markup_rows {
            let line = option_line(None, "markup-rows", bool_text(markup_rows));
            out.append(line.as_str());
        }
        assert(out@ =~= spec_text_option("prompt"@, self.prompt) + spec_text_option(
            "message"@,
            self.message,
        ) + spec_bool_option("markup-rows"@, self.markup_rows));
        if let Some(no_custom) = self.no_custom {
            let line = option_line(None, "no-custom", bool_text(no_custom));
            out.append(line.as_str());
        }
        assert(out@ =~= spec_text_option("prompt"@, self.prompt) + spec_text_option(
            "message"@,
            self.message,
        ) + spec_bool_option("markup-rows"@, self.markup_rows) + spec_bool_option(
            "no-custom"@,
            self.no_custom,
        ));
        if let Some(urgent) = &self.urgent {
            let line = option_line(None, "urgent", urgent.as_str());
            out.append(line.as_str());
        }
        assert(out@ =~= spec_text_option("prompt"@, self.prompt) + spec_text_option(
            "message"@,
            self.message,
        ) + spec_bool_option("markup-rows"@, self.markup_rows) + spec_bool_option(
            "no-custom"@,
            self.no_custom,
        ) + spec_text_option("urgent"@, self.urgent));
        if let Some(active) = &self.active {
            let line = option_line(None, "active", active.as_str());
            out.append(line.as_str());
        }
        assert(out@ =~= spec_text_option("prompt"@, self.prompt) + spec_text_option(
            "message"@,
            self.message,
        ) + spec_bool_option("markup-rows"@, self.markup_rows) + spec_bool_option(
            "no-custom"@,
            self.no_custom,
        ) + spec_text_option("urgent"@, self.urgent) + spec_text_option("active"@, self.active));
        if let Some(delim) = &self.delim {
            let line = option_line(None, "delim", delim.as_str());
            out.append(line.as_str());
        }
        assert(out@ =~= spec_mode_lines(*self));
        out.append("\n");
        out
    }
}

/// One selectable row: its display text plus at most one auxiliary
/// attribute.
///
/// The protocol accepts only one attribute per row.  A caller may still
/// set several; rendering then emits exactly one, with icon taking
/// priority over meta, and meta over non-selectable.  This is a protocol
/// limitation, not a defect to smooth over.
pub struct RowOption {
    /// The display text of the row.
    pub text: String,
    /// The icon shown next to the row.
    pub icon: Option<String>,
    /// Invisible search terms for the row.
    pub meta: Option<String>,
    /// If `true`, the row cannot be activated.
    pub non_selectable: Option<bool>,
}

/// The rendered line of a row: the bare text when no attribute is set,
/// else one attribute line, icon first, then meta, then non-selectable.
pub open spec fn spec_row_render(r: RowOption) -> Seq<char> {
    if r.icon is Some {
        spec_option_line(Some(r.text@), "icon"@, r.icon->0@)
    } else if r.meta is Some {
        spec_option_line(Some(r.text@), "meta"@, r.meta->0@)
    } else if r.non_selectable is Some {
        spec_option_line(Some(r.text@), "nonselectable"@, spec_bool_text(r.non_selectable->0))
    } else {
        r.text@ + "\n"@
    }
}

impl RowOption {
    /// A row with the given display text and no attribute.
    pub fn new(text: String) -> (r: RowOption)
        ensures
            r == (RowOption { text, icon: None, meta: None, non_selectable: None }),
    {
        RowOption { text, icon: None, meta: None, non_selectable: None }
    }

    /// Sets the icon, leaving every other field as it was.
    pub fn set_icon(&mut self, icon: String)
        ensures
            *final(self) == (RowOption { icon: Some(icon), ..*old(self) }),
    {
        self.icon = Some(icon);
    }

    /// Sets the invisible search terms, leaving every other field as it
    /// was.
    pub fn set_meta(&mut self, meta: String)
        ensures
            *final(self) == (RowOption { meta: Some(meta), ..*old(self) }),
    {
        self.meta = Some(meta);
    }

    /// Sets whether the row is refused activation, leaving every other
    /// field as it was.
    pub fn set_non_selectable(&mut self, non_selectable: bool)
        ensures
            *final(self) == (RowOption { non_selectable: Some(non_selectable), ..*old(self) }),
    {
        self.non_selectable = Some(non_selectable);
    }

    /// Renders the row as exactly one protocol line.
    pub fn render(&self) -> (r: String)
        ensures
            r@ == spec_row_render(*self),
    {
        if let Some(icon) = &self.icon {
            option_line(Some(self.text.as_str()), "icon", icon.as_str())
        } else if let Some(meta) = &self.meta {
            option_line(Some(self.text.as_str()), "meta", meta.as_str())
        } else if let Some(non_selectable) = self.non_selectable {
            option_line(Some(self.text.as_str()), "nonselectable", bool_text(non_selectable))
        } else {
            let mut out = String::from_str(self.text.as_str());
            out.append("\n");
            out
        }
    }
}

/// An all-absent block renders to nothing but its terminating newline.
/// The encoder appends that newline regardless of emptiness; it is the
/// assembler that drops the block of an empty `ModeOption` as a whole.
pub proof fn lemma_empty_block_bare_newline(m: ModeOption)
    requires
        spec_mode_is_empty(m),
    ensures
        spec_mode_render(m) == "\n"@,
{
    assert(spec_mode_lines(m) =~= Seq::<char>::empty());
    assert(spec_mode_lines(m) + "\n"@ =~= "\n"@);
}

/// A row with an icon renders as the icon line alone, whatever else is
/// set: the icon takes priority over meta and over non-selectable, since
/// the protocol carries at most one attribute per row.
pub proof fn lemma_icon_priority(r: RowOption)
    requires
        r.icon is Some,
    ensures
        spec_row_render(r) == spec_option_line(Some(r.text@), "icon"@, r.icon->0@),
{
}

} // verus!

