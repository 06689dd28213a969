//! Rows of the configuration's debug table and the masking of secrets.

use crate::config::app::AppConfig;
use crate::config::cors::CorsConfig;
use crate::config::database::DatabaseConfig;
use crate::config::logging::LoggingConfig;
use crate::config::mailer::MailerConfig;
use crate::config::providers::{
    AnthropicConfig, AzureOpenAIConfig, BedrockConfig, CohereConfig, OpenAIConfig, VertexConfig,
};
use crate::config::session::SessionConfig;
use crate::config::sorai::SoraiConfig;
use crate::config::storage::StorageConfig;
use crate::text::{decimal, decimal_string, lemma_ascii_bytes};
use vstd::prelude::*;
use vstd::utf8::{decode_utf8, encode_utf8, is_ascii_chars, is_char_boundary};

verus! {

/// One row of the debug table.
#[derive(Debug)]
pub struct ConfigItem {
    pub section: String,
    pub key: String,
    pub value: String,
}

/// What the contracts say of a row.
pub struct Row {
    pub section: Seq<char>,
    pub key: Seq<char>,
    pub value: Seq<char>,
}

impl View for ConfigItem {
    type V = Row;

    open spec fn view(&self) -> Row {
        Row { section: self.section@, key: self.key@, value: self.value@ }
    }
}

/// What the contracts say of a list of rows.
pub open spec fn rows(items: Seq<ConfigItem>) -> Seq<Row> {
    items.map_values(|item: ConfigItem| item@)
}

/// A row of the debug table.
pub open spec fn row(section: Seq<char>, key: Seq<char>, value: Seq<char>) -> Row {
    Row { section, key, value }
}

/// Appends one row to the table.
pub fn push_item(items: &mut Vec<ConfigItem>, section: &str, key: &str, value: String)
    ensures
        rows(final(items)@) == rows(old(items)@).push(row(section@, key@, value@)),
{
    let item = ConfigItem {
        section: String::from_str(section),
        key: String::from_str(key),
        value,
    };
    assert(rows(old(items)@.push(item)) == rows(old(items)@).push(item@));
    items.push(item);
}

/// `n` asterisks.
pub open spec fn stars(n: nat) -> Seq<char> {
    Seq::new(n, |i: int| '*')
}

/// How a secret is shown in the debug table. An empty one reads
/// `<not set>`. One of up to eight bytes is replaced by as many asterisks.
/// A longer one keeps its first four and its last four bytes around `...`;
/// where either cut would fall inside a character, it is replaced by
/// asterisks like a short one.
pub open spec fn redacted(value: Seq<char>) -> Seq<char> {
    let bytes = encode_utf8(value);
    let n = bytes.len() as int;
    if n == 0 {
        "<not set>"@
    } else if n <= 8 || !is_char_boundary(bytes, 4) || !is_char_boundary(bytes, n - 4) {
        stars(n as nat)
    } else {
        decode_utf8(bytes.subrange(0, 4)) + "..."@ + decode_utf8(bytes.subrange(n - 4, n))
    }
}

fn star_string(n: usize) -> (out: String)
    ensures
        out@ == stars(n as nat),
{
    let mut out = String::new();
    let mut i: usize = 0;
    while i < n
        invariant
            i <= n,
            out@ == stars(i as nat),
        decreases n - i,
    {
        out.push('*');
        assert(stars(i as nat).push('*') == stars((i + 1) as nat));
        i += 1;
    }
    out
}

/// Masks a secret for display.
pub fn redact_sensitive(value: &str) -> (out: String)
    ensures
        out@ == redacted(value@),
{
    let n = value.as_bytes().len();
    if n == 0 {
        return String::from_str("<not set>");
    }
    if n <= 8 || !value.is_char_boundary(4) || !value.is_char_boundary(n - 4) {
        return star_string(n);
    }
    let (head, _) = value.split_at(4);
    let (_, tail) = value.split_at(n - 4);
    let mut out = String::from_str(head);
    out.append("...");
    out.append(tail);
    proof {
        vstd::utf8::encode_utf8_decode_utf8(head@);
        vstd::utf8::encode_utf8_decode_utf8(tail@);
    }
    out
}

/// A value as the table shows it: `<not set>` in place of an empty one.
pub open spec fn shown(value: Seq<char>) -> Seq<char> {
    if value.len() == 0 {
        "<not set>"@
    } else {
        value
    }
}

/// A value for display, with `<not set>` in place of an empty one.
pub fn or_not_set(value: &String) -> (out: String)
    ensures
        out@ == shown(value@),
{
    if value.as_str().is_empty() {
        String::from_str("<not set>")
    } else {
        value.clone()
    }
}

/// How a flag is shown.
pub open spec fn flag_text(b: bool) -> Seq<char> {
    if b {
        "true"@
    } else {
        "false"@
    }
}

/// A flag for display.
pub fn flag_string(b: bool) -> (out: String)
    ensures
        out@ == flag_text(b),
{
    if b {
        String::from_str("true")
    } else {
        String::from_str("false")
    }
}

/// A number followed by a unit.
pub open spec fn with_unit(n: nat, unit: Seq<char>) -> Seq<char> {
    decimal(n) + unit
}

/// A number for display, followed by `unit`.
pub fn number_with_unit(n: u64, unit: &str) -> (out: String)
    ensures
        out@ == with_unit(n as nat, unit@),
{
    let mut out = decimal_string(n);
    out.append(unit);
    out
}

/// The items of `parts`, with `sep` between neighbours.
pub open spec fn joined_with(parts: Seq<Seq<char>>, sep: Seq<char>) -> Seq<char>
    decreases parts.len(),
{
    if parts.len() == 0 {
        Seq::empty()
    } else if parts.len() == 1 {
        parts[0]
    } else {
        joined_with(parts.drop_last(), sep) + sep + parts.last()
    }
}

/// The items of `parts` in one string, with `sep` between neighbours.
pub fn join(parts: &Vec<String>, sep: &str) -> (out: String)
    ensures
        out@ == joined_with(crate::text::texts(parts@), sep@),
{
    let ghost all = crate::text::texts(parts@);
    let mut out = String::new();
    let mut i: usize = 0;
    while i < parts.len()
        invariant
            i <= parts.len(),
            all == crate::text::texts(parts@),
            out@ == joined_with(all.take(i as int), sep@),
        decreases parts.len() - i,
    {
        proof {
            let cur = all.take(i + 1);
            assert(cur.drop_last() == all.take(i as int));
            assert(cur.last() == parts@[i as int]@);
        }
        if i > 0 {
            out.append(sep);
        } else {
            assert(Seq::<char>::empty() + parts@[i as int]@ == parts@[i as int]@);
        }
        out.append(parts[i].as_str());
        i += 1;
    }
    assert(all.take(all.len() as int) == all);
    out
}

/// The whole configuration of the server.
#[derive(Clone, Debug)]
pub struct Config {
    pub sorai: SoraiConfig,
    pub app: AppConfig,
    pub logging: LoggingConfig,
    pub cors: CorsConfig,
    pub database: DatabaseConfig,
    pub session: SessionConfig,
    pub mailer: MailerConfig,
    pub storage: StorageConfig,
    pub openai: OpenAIConfig,
    pub anthropic: AnthropicConfig,
    pub bedrock: BedrockConfig,
    pub cohere: CohereConfig,
    pub azure_openai: AzureOpenAIConfig,
    pub vertex: VertexConfig,
}

impl Config {
    /// Every record holds its defaults.
    pub open spec fn is_default(&self) -> bool {
        &&& self.sorai.is_default()
        &&& self.app.is_default()
        &&& self.logging.is_default()
        &&& self.cors.is_default()
        &&& self.database.is_default()
        &&& self.session.is_default()
        &&& self.mailer.is_default()
        &&& self.storage.is_default()
        &&& self.openai.is_default()
        &&& self.anthropic.is_default()
        &&& self.bedrock.is_default()
        &&& self.cohere.is_default()
        &&& self.azure_openai.is_default()
        &&& self.vertex.is_default()
    }

    /// The rows of the debug table: the server, logging and CORS, then the
    /// providers.
    pub open spec fn debug_table(&self) -> Seq<Row> {
        self.sorai.debug_rows() + self.logging.debug_rows() + self.cors.debug_rows()
            + self.openai.debug_rows() + self.anthropic.debug_rows() + self.bedrock.debug_rows()
            + self.cohere.debug_rows() + self.azure_openai.debug_rows() + self.vertex.debug_rows()
    }

    /// The rows of the debug table, secrets masked, ready to be printed.
    pub fn display_debug_table(&self) -> (items: Vec<ConfigItem>)
        ensures
            rows(items@) == self.debug_table(),
    {
        let mut items: Vec<ConfigItem> = Vec::new();
        assert(rows(items@) == Seq::<Row>::empty());
        self.sorai.add_to_debug(&mut items);
        assert(rows(items@) == self.sorai.debug_rows());
        self.logging.add_to_debug(&mut items);
        self.cors.add_to_debug(&mut items);
        self.openai.add_to_debug(&mut items);
        self.anthropic.add_to_debug(&mut items);
        self.bedrock.add_to_debug(&mut items);
        self.cohere.add_to_debug(&mut items);
        self.azure_openai.add_to_debug(&mut items);
        self.vertex.add_to_debug(&mut items);
        items
    }
}

impl Default for Config {
    fn default() -> (out: Self)
        ensures
            out.is_default(),
    {
        Config {
            sorai: SoraiConfig::default(),
            app: AppConfig::default(),
            logging: LoggingConfig::default(),
            cors: CorsConfig::default(),
            database: DatabaseConfig::default(),
            session: SessionConfig::default(),
            mailer: MailerConfig::default(),
            storage: StorageConfig::default(),
            openai: OpenAIConfig::default(),
            anthropic: AnthropicConfig::default(),
            bedrock: BedrockConfig::default(),
            cohere: CohereConfig::default(),
            azure_openai: AzureOpenAIConfig::default(),
            vertex: VertexConfig::default(),
        }
    }
}

/// A secret made of ASCII characters is shown by its first four and its
/// last four characters when it is longer than eight, and by one asterisk
/// for each character otherwise; nothing else of it appears.
pub proof fn lemma_redacted_ascii(value: Seq<char>)
    requires
        is_ascii_chars(value),
    ensures
        value.len() == 0 ==> redacted(value) == "<not set>"@,
        0 < value.len() <= 8 ==> redacted(value) == stars(value.len()),
        value.len() > 8 ==> redacted(value) == value.take(4) + "..."@ + value.skip(
            value.len() - 4,
        ),
{
    let n = value.len() as int;
    vstd::utf8::is_ascii_chars_encode_utf8(value);
    if n > 8 {
        lemma_ascii_bytes(value, 0, 4);
        lemma_ascii_bytes(value, n - 4, n);
        lemma_ascii_bytes(value, 4, 4);
        assert(value.subrange(0, 4) == value.take(4));
        assert(value.subrange(n - 4, n) == value.skip(n - 4));
    }
}

} // verus!
