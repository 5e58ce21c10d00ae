//! Message templates: placeholders, personalization and formatting.
//!
//! A placeholder is a token `{name}`: an opening brace, one or more
//! characters other than a closing brace, and a closing brace. Rendering a
//! template for a contact replaces every token by the contact's value for
//! it. A value that itself holds a token of a later placeholder is
//! substituted again: the substitutions run one after the other, in the
//! order of the placeholders, and no expansion beyond that is promised.

use vstd::prelude::*;
use vstd::hash_map::StringHashMap;
use crate::text::{
    lowercase,
    to_lowercase,
    same_text,
    chars_of,
    string_of,
    push_text,
    push_range,
};
use crate::contacts::field_texts;
use crate::format::{formatted, well_spaced, format_text, lemma_format_idempotent};

verus! {

/// The first index at or after `from` that holds a closing brace, or the
/// length of `s` where none does.
pub open spec fn next_close(s: Seq<char>, from: int) -> int
    decreases s.len() - from,
{
    if from < 0 || from >= s.len() {
        s.len() as int
    } else if s[from] == '}' {
        from
    } else {
        next_close(s, from + 1)
    }
}

/// Whether a token starts at `i`: an opening brace stands there, and the
/// next closing brace comes after at least one other character.
pub open spec fn token_at(s: Seq<char>, i: int) -> bool {
    0 <= i < s.len() && s[i] == '{' && i + 1 < next_close(s, i + 1) < s.len()
}

/// The placeholder names of the tokens that start at or after `i`, in order
/// of occurrence. Tokens do not overlap: the search goes on behind the
/// closing brace of each.
pub open spec fn placeholders_from(s: Seq<char>, i: int) -> Seq<Seq<char>>
    decreases s.len() - i,
{
    if i < 0 || i >= s.len() {
        Seq::empty()
    } else if token_at(s, i) {
        let close = next_close(s, i + 1);
        seq![s.subrange(i + 1, close)] + placeholders_from(s, close + 1)
    } else {
        placeholders_from(s, i + 1)
    }
}

/// The placeholder names of a template, repeats included.
pub open spec fn placeholders_of(template: Seq<char>) -> Seq<Seq<char>> {
    placeholders_from(template, 0)
}

/// Whether `pattern` stands in `s` at `i`.
pub open spec fn occurs_at(s: Seq<char>, pattern: Seq<char>, i: int) -> bool {
    0 <= i && i + pattern.len() <= s.len() && s.subrange(i, i + pattern.len()) == pattern
}

/// The text of `s` from `i` on, with every occurrence of a non-empty
/// `pattern` replaced. Occurrences are taken from the left and do not
/// overlap.
pub open spec fn replaced_from(
    s: Seq<char>,
    pattern: Seq<char>,
    replacement: Seq<char>,
    i: int,
) -> Seq<char>
    decreases s.len() - i,
{
    if i < 0 || i >= s.len() {
        Seq::empty()
    } else if pattern.len() > 0 && occurs_at(s, pattern, i) {
        replacement + replaced_from(s, pattern, replacement, i + pattern.len())
    } else {
        seq![s[i]] + replaced_from(s, pattern, replacement, i + 1)
    }
}

/// `s` with every occurrence of `pattern` replaced. An empty pattern occurs
/// nowhere.
pub open spec fn replaced(s: Seq<char>, pattern: Seq<char>, replacement: Seq<char>) -> Seq<char> {
    replaced_from(s, pattern, replacement, 0)
}

/// The token of a placeholder: its name in braces.
pub open spec fn token(name: Seq<char>) -> Seq<char> {
    seq!['{'] + name + seq!['}']
}

/// Whether a placeholder, given in lowercase, asks for the contact's name.
pub open spec fn is_name_alias(lower: Seq<char>) -> bool {
    lower == "name"@ || lower == "nome"@
}

/// The value of a placeholder, given its lowercase form. The name
/// placeholder reads the key `Name` and then `name`; every other
/// placeholder reads the key that it spells. A missing key gives the empty
/// text.
pub open spec fn field_value(
    name: Seq<char>,
    lower: Seq<char>,
    fields: Map<Seq<char>, Seq<char>>,
) -> Seq<char> {
    if is_name_alias(lower) {
        if fields.contains_key("Name"@) {
            fields["Name"@]
        } else if fields.contains_key("name"@) {
            fields["name"@]
        } else {
            Seq::empty()
        }
    } else if fields.contains_key(name) {
        fields[name]
    } else {
        Seq::empty()
    }
}

/// The value that a placeholder resolves to.
pub open spec fn resolved(name: Seq<char>, fields: Map<Seq<char>, Seq<char>>) -> Seq<char> {
    field_value(name, lowercase(name), fields)
}

/// `message` after the first `n` placeholders have been substituted, one
/// after the other.
pub open spec fn substituted(
    message: Seq<char>,
    placeholders: Seq<Seq<char>>,
    fields: Map<Seq<char>, Seq<char>>,
    n: int,
) -> Seq<char>
    decreases n,
{
    if n <= 0 {
        message
    } else {
        replaced(
            substituted(message, placeholders, fields, n - 1),
            token(placeholders[n - 1]),
            resolved(placeholders[n - 1], fields),
        )
    }
}

/// The message that a template renders to for the given fields.
pub open spec fn personalized(template: Seq<char>, fields: Map<Seq<char>, Seq<char>>) -> Seq<
    char,
> {
    let placeholders = placeholders_of(template);
    substituted(template, placeholders, fields, placeholders.len() as int)
}

/// The names of a run of strings, as plain sequences.
pub open spec fn texts(strings: Seq<String>) -> Seq<Seq<char>> {
    strings.map_values(|s: String| s@)
}

/// Finds the first closing brace at or after `from`.
fn find_close(s: &Vec<char>, from: usize) -> (close: usize)
    requires
        from <= s.len(),
    ensures
        close == next_close(s@, from as int),
        from <= close <= s.len(),
{
    let mut j: usize = from;
    while j < s.len() && s[j] != '}'
        invariant
            from <= j <= s.len(),
            next_close(s@, from as int) == next_close(s@, j as int),
        decreases s.len() - j,
    {
        j += 1;
    }
    j
}

/// Extracts the placeholder names of a template, in order of occurrence and
/// with repeats.
pub fn extract_placeholders(template: &str) -> (names: Vec<String>)
    ensures
        texts(names@) == placeholders_of(template@),
{
    let s = chars_of(template);
    let mut names: Vec<String> = Vec::new();
    let mut i: usize = 0;
    while i < s.len()
        invariant
            i <= s.len(),
            s@ == template@,
            placeholders_of(s@) == texts(names@) + placeholders_from(s@, i as int),
        decreases s.len() - i,
    {
        if s[i] == '{' {
            let close = find_close(&s, i + 1);
            if i + 1 < close && close < s.len() {
                let mut name = String::new();
                push_range(&mut name, &s, i + 1, close);
                names.push(name);
                i = close + 1;
            } else {
                i += 1;
            }
        } else {
            i += 1;
        }
    }
    names
}

/// Whether `pattern` stands in `s` at `i`.
fn occurs(s: &Vec<char>, pattern: &Vec<char>, i: usize) -> (yes: bool)
    requires
        i <= s.len(),
    ensures
        yes == occurs_at(s@, pattern@, i as int),
{
    if pattern.len() > s.len() - i {
        return false;
    }
    let mut k: usize = 0;
    while k < pattern.len()
        invariant
            k <= pattern.len(),
            i + pattern.len() <= s.len(),
            forall|m: int| 0 <= m < k ==> s@[i + m] == pattern@[m],
        decreases pattern.len() - k,
    {
        if s[i + k] != pattern[k] {
            return false;
        }
        k += 1;
    }
    assert(s@.subrange(i as int, i + pattern.len()) =~= pattern@);
    true
}

/// Replaces every occurrence of `pattern` in `s`, from the left and without
/// overlap.
pub fn replace_all(s: &Vec<char>, pattern: &Vec<char>, replacement: &Vec<char>) -> (out: Vec<char>)
    ensures
        out@ == replaced(s@, pattern@, replacement@),
{
    let mut out: Vec<char> = Vec::new();
    let mut i: usize = 0;
    while i < s.len()
        invariant
            i <= s.len(),
            replaced(s@, pattern@, replacement@) == out@ + replaced_from(
                s@,
                pattern@,
                replacement@,
                i as int,
            ),
        decreases s.len() - i,
    {
        if pattern.len() > 0 && occurs(s, pattern, i) {
            let ghost before = out@;
            let mut k: usize = 0;
            while k < replacement.len()
                invariant
                    k <= replacement.len(),
                    out@ == before + replacement@.take(k as int),
                decreases replacement.len() - k,
            {
                out.push(replacement[k]);
                k += 1;
            }
            i += pattern.len();
        } else {
            out.push(s[i]);
            i += 1;
        }
    }
    out
}

/// The template offered where the user has written none.
pub const DEFAULT_TEMPLATE: &'static str =
    "Olá {nome}, tudo bem?\n\nEstou entrando em contato para informar sobre nossa nova promoção.\nGostaria de saber se você tem interesse em conhecer mais detalhes.\n\nAguardo seu retorno!";

pub const EXAMPLE_GREETING_TITLE: &'static str = "Saudação Simples";

pub const EXAMPLE_GREETING: &'static str =
    "Olá {nome}, tudo bem? Espero que esteja tendo um ótimo dia!";

pub const EXAMPLE_ACCOUNT_TITLE: &'static str = "Informação de Conta";

pub const EXAMPLE_ACCOUNT: &'static str =
    "A conta sua, {nome}, está pronta para ser acessada. Entre em contato para mais informações.";

pub const EXAMPLE_INVITATION_TITLE: &'static str = "Convite para Evento";

pub const EXAMPLE_INVITATION: &'static str =
    "Olá {nome}! Gostaríamos de convidá-lo(a) para nosso evento que acontecerá no próximo sábado.";

pub const EXAMPLE_APPOINTMENT_TITLE: &'static str = "Confirmação de Agendamento";

pub const EXAMPLE_APPOINTMENT: &'static str =
    "Prezado(a) {nome}, confirmamos seu agendamento para o dia 10/05/2025 às 14h.";

pub const EXAMPLE_OFFER_TITLE: &'static str = "Promoção Personalizada";

pub const EXAMPLE_OFFER: &'static str =
    "Oi {nome}! Preparamos uma oferta especial para você. Responda esta mensagem para saber mais.";

/// The line that opens a preview.
pub const PREVIEW_HEADER: &'static str = "PRÉVIA DA MENSAGEM\n====================\n";

/// The line that closes a preview.
pub const PREVIEW_FOOTER: &'static str = "\n====================";

/// The example templates, each with its title.
pub open spec fn template_examples() -> Seq<(Seq<char>, Seq<char>)> {
    seq![
        (EXAMPLE_GREETING_TITLE@, EXAMPLE_GREETING@),
        (EXAMPLE_ACCOUNT_TITLE@, EXAMPLE_ACCOUNT@),
        (EXAMPLE_INVITATION_TITLE@, EXAMPLE_INVITATION@),
        (EXAMPLE_APPOINTMENT_TITLE@, EXAMPLE_APPOINTMENT@),
        (EXAMPLE_OFFER_TITLE@, EXAMPLE_OFFER@),
    ]
}

/// The views of a run of titled texts.
pub open spec fn titled_texts(pairs: Seq<(String, String)>) -> Seq<(Seq<char>, Seq<char>)> {
    pairs.map_values(|p: (String, String)| (p.0@, p.1@))
}

/// A message with its signature: the message alone where the signature is
/// empty, else the message, an empty line and the signature.
pub open spec fn signed(message: Seq<char>, signature: Seq<char>) -> Seq<char> {
    if signature.len() == 0 {
        message
    } else {
        message + "\n\n"@ + signature
    }
}

/// A rendered message between the two lines of a preview.
pub open spec fn preview_of(message: Seq<char>) -> Seq<char> {
    PREVIEW_HEADER@ + message + PREVIEW_FOOTER@
}

/// Why an input was refused before any campaign began.
#[derive(Clone, Copy, Debug, PartialEq, Eq, Structural)]
pub enum ValidationError {
    /// The template is the empty text.
    EmptyTemplate,
    /// The contact list is empty.
    EmptyCampaign,
    /// The phone of the contact at this index holds no digit.
    MalformedPhone(usize),
}

/// The value of a placeholder for the given fields. `lower` is the
/// placeholder's name in lowercase.
pub fn resolve_value(name: &str, lower: &str, fields: &StringHashMap<String>) -> (value: String)
    ensures
        value@ == field_value(name@, lower@, field_texts(fields@)),
{
    let found = if same_text(lower, "name") || same_text(lower, "nome") {
        match fields.get("Name") {
            Some(v) => Some(v),
            None => fields.get("name"),
        }
    } else {
        fields.get(name)
    };
    match found {
        Some(v) => v.clone(),
        None => String::new(),
    }
}

/// The token of a placeholder.
fn token_of(name: &str) -> (out: Vec<char>)
    ensures
        out@ == token(name@),
{
    let mut out: Vec<char> = Vec::new();
    out.push('{');
    let chars = chars_of(name);
    let ghost head = out@;
    let mut k: usize = 0;
    while k < chars.len()
        invariant
            k <= chars.len(),
            chars@ == name@,
            head == seq!['{'],
            out@ == head + chars@.take(k as int),
        decreases chars.len() - k,
    {
        out.push(chars[k]);
        k += 1;
    }
    out.push('}');
    out
}

/// A message template with the placeholders found in it.
pub struct MessageHandler {
    template: String,
    placeholders: Vec<String>,
}

/// What a [`MessageHandler`] holds, as plain sequences.
pub struct MessageHandlerView {
    pub template: Seq<char>,
    pub placeholders: Seq<Seq<char>>,
}

impl View for MessageHandler {
    type V = MessageHandlerView;

    closed spec fn view(&self) -> MessageHandlerView {
        MessageHandlerView { template: self.template@, placeholders: texts(self.placeholders@) }
    }
}

impl MessageHandler {
    #[verifier::type_invariant]
    spec fn well_formed(self) -> bool {
        texts(self.placeholders@) == placeholders_of(self.template@)
    }

    /// Whether the placeholders are those of the template. Every handler
    /// that the library hands out is so.
    pub open spec fn derived(view: MessageHandlerView) -> bool {
        view.placeholders == placeholders_of(view.template)
    }

    /// A handler with the empty template.
    pub fn new() -> (handler: Self)
        ensures
            handler@.template == Seq::<char>::empty(),
            handler@.placeholders == Seq::<Seq<char>>::empty(),
    {
        let template = String::new();
        let placeholders: Vec<String> = Vec::new();
        assert(texts(placeholders@) =~= placeholders_of(template@));
        MessageHandler { template, placeholders }
    }

    /// Replaces the template and returns the placeholders found in it. The
    /// empty text is refused and leaves the handler as it was.
    pub fn set_template(&mut self, template: &str) -> (result: Result<&[String], ValidationError>)
        ensures
            Self::derived(final(self)@),
            match result {
                Ok(names) => template@.len() > 0 && final(self)@.template == template@ && texts(
                    names@,
                ) == placeholders_of(template@),
                Err(e) => template@.len() == 0 && e == ValidationError::EmptyTemplate
                    && final(self)@ == old(self)@,
            },
    {
        proof {
            use_type_invariant(&*self);
        }
        if template.is_empty() {
            return Err(ValidationError::EmptyTemplate);
        }
        let names = extract_placeholders(template);
        *self = MessageHandler { template: template.to_owned(), placeholders: names };
        Ok(self.placeholders.as_slice())
    }

    /// The template as it was last set.
    pub fn template(&self) -> (template: &str)
        ensures
            template@ == self@.template,
    {
        self.template.as_str()
    }

    /// The placeholders of the template, in order of occurrence.
    pub fn placeholders(&self) -> (names: &[String])
        ensures
            texts(names@) == self@.placeholders,
            texts(names@) == placeholders_of(self@.template),
    {
        proof {
            use_type_invariant(self);
        }
        self.placeholders.as_slice()
    }

    /// Renders the template for one contact: every token is replaced by the
    /// value that its placeholder resolves to.
    pub fn personalize_message(&self, contact_data: &StringHashMap<String>) -> (message: String)
        ensures
            message@ == personalized(self@.template, field_texts(contact_data@)),
    {
        proof {
            use_type_invariant(self);
        }
        let ghost fields = field_texts(contact_data@);
        let ghost names = placeholders_of(self.template@);
        let mut message = chars_of(self.template.as_str());
        let mut i: usize = 0;
        while i < self.placeholders.len()
            invariant
                i <= self.placeholders.len(),
                names == texts(self.placeholders@),
                fields == field_texts(contact_data@),
                message@ == substituted(self.template@, names, fields, i as int),
            decreases self.placeholders.len() - i,
        {
            let name = self.placeholders[i].as_str();
            let lower = to_lowercase(name);
            let value = resolve_value(name, lower.as_str(), contact_data);
            let pattern = token_of(name);
            let replacement = chars_of(value.as_str());
            message = replace_all(&message, &pattern, &replacement);
            i += 1;
        }
        string_of(&message)
    }

    /// The template offered where the user has written none.
    pub fn get_default_template() -> (template: String)
        ensures
            template@ == DEFAULT_TEMPLATE@,
    {
        DEFAULT_TEMPLATE.to_owned()
    }

    /// The example templates, each with its title.
    pub fn get_template_examples() -> (examples: Vec<(String, String)>)
        ensures
            titled_texts(examples@) == template_examples(),
    {
        let mut examples: Vec<(String, String)> = Vec::new();
        examples.push((EXAMPLE_GREETING_TITLE.to_owned(), EXAMPLE_GREETING.to_owned()));
        examples.push((EXAMPLE_ACCOUNT_TITLE.to_owned(), EXAMPLE_ACCOUNT.to_owned()));
        examples.push((EXAMPLE_INVITATION_TITLE.to_owned(), EXAMPLE_INVITATION.to_owned()));
        examples.push((EXAMPLE_APPOINTMENT_TITLE.to_owned(), EXAMPLE_APPOINTMENT.to_owned()));
        examples.push((EXAMPLE_OFFER_TITLE.to_owned(), EXAMPLE_OFFER.to_owned()));
        examples
    }

    /// Appends a signature to a message, behind an empty line. An empty
    /// signature leaves the message as it is.
    pub fn add_signature(&self, message: &str, signature: &str) -> (out: String)
        ensures
            out@ == signed(message@, signature@),
    {
        let mut out = message.to_owned();
        if signature.is_empty() {
            return out;
        }
        push_text(&mut out, "\n\n");
        push_text(&mut out, signature);
        out
    }

    /// Formats a message in four steps: whitespace runs collapse, a line
    /// break before a word gets its pair, three or more line breaks are cut
    /// to two, and both ends are trimmed. Paragraph breaks survive as a pair
    /// of line breaks, other whitespace between words becomes one space. The
    /// result is well-spaced, and formatting it again changes nothing.
    pub fn format_message(&self, message: &str) -> (out: String)
        ensures
            out@ == formatted(message@),
            well_spaced(out@),
            formatted(out@) == out@,
    {
        proof {
            lemma_format_idempotent(message@);
        }
        format_text(message)
    }

    /// The rendered message for one contact between a header and a footer
    /// line, for showing and not for sending.
    pub fn preview_message(&self, contact_data: &StringHashMap<String>) -> (preview: String)
        ensures
            preview@ == preview_of(personalized(self@.template, field_texts(contact_data@))),
    {
        let message = self.personalize_message(contact_data);
        let mut preview = PREVIEW_HEADER.to_owned();
        push_text(&mut preview, message.as_str());
        push_text(&mut preview, PREVIEW_FOOTER);
        preview
    }
}

impl Default for MessageHandler {
    fn default() -> (handler: Self)
        ensures
            handler@.template == Seq::<char>::empty(),
            handler@.placeholders == Seq::<Seq<char>>::empty(),
    {
        MessageHandler::new()
    }
}

} // verus!
