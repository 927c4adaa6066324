use vstd::prelude::*;

use crate::plugin::{opt_text, Plugin, PreppedPlugin, temp_path};
use crate::input::TaskId;
use crate::text::{hex_digits, push_char, push_hex, same_text};

verus! {

/// How many leading bytes of an input decide its type.
pub const HEAD_LEN: usize = 4096;

/// Whether `pattern` is a regular expression that the `regex` crate accepts.
pub uninterp spec fn pattern_compiles(pattern: Seq<char>) -> bool;

/// Whether the regular expression `pattern` matches somewhere in `text`.
pub uninterp spec fn pattern_matches(pattern: Seq<char>, text: Seq<char>) -> bool;

/// The text that `String::from_utf8_lossy` makes of `bytes`.
pub uninterp spec fn lossy_text(bytes: Seq<u8>) -> Seq<char>;

/// Relies on `regex::Regex::new`, then `regex::Regex::is_match`: `None` when
/// the pattern does not compile, else whether it matches `text`.
#[verifier::external_body]
fn regex_check(pattern: &str, text: &str) -> (r: Option<bool>)
    ensures
        r.is_some() == pattern_compiles(pattern@),
        r matches Some(m) ==> m == pattern_matches(pattern@, text@),
{
    match regex::Regex::new(pattern) {
        Ok(re) => Some(re.is_match(text)),
        Err(_) => None,
    }
}

/// Relies on `String::from_utf8_lossy`: invalid sequences become U+FFFD.
#[verifier::external_body]
fn utf8_lossy(bytes: &[u8]) -> (r: String)
    ensures
        r@ == lossy_text(bytes@),
{
    String::from_utf8_lossy(bytes).into_owned()
}

/// Whether the rule with `pattern` fires on `text`.
pub open spec fn fires(pattern: Seq<char>, text: Seq<char>) -> bool {
    pattern_compiles(pattern) && pattern_matches(pattern, text)
}

/// The type of the first rule, in order, that fires on `text`.
pub open spec fn first_match(rules: Seq<(Seq<char>, Seq<char>)>, text: Seq<char>) -> Option<Seq<char>>
    decreases rules.len(),
{
    if rules.len() == 0 {
        None
    } else if fires(rules[0].1, text) {
        Some(rules[0].0)
    } else {
        first_match(rules.drop_first(), text)
    }
}

/// Each byte as two upper-case hexadecimal digits.
pub open spec fn hex_text(bytes: Seq<u8>) -> Seq<char>
    decreases bytes.len(),
{
    if bytes.len() == 0 {
        seq![]
    } else {
        hex_text(bytes.drop_last()) + hex_digits(bytes.last() as nat, 2, true)
    }
}

/// A hexadecimal pattern as written in the configuration made ready to
/// match: spaces dropped, ASCII letters in upper case.
pub open spec fn hex_pattern_of(s: Seq<char>) -> Seq<char>
    decreases s.len(),
{
    if s.len() == 0 {
        seq![]
    } else {
        let rest = hex_pattern_of(s.drop_last());
        let c = s.last();
        if c == ' ' {
            rest
        } else {
            rest.push(ascii_upper(c))
        }
    }
}

pub open spec fn ascii_upper(c: char) -> char {
    if 'a' <= c <= 'z' {
        ((c as u32 - 32) as u8) as char
    } else {
        c
    }
}

/// The rule pairs (type, pattern) as text.
pub open spec fn rule_texts(v: Seq<(String, String)>) -> Seq<(Seq<char>, Seq<char>)> {
    v.map_values(|p: (String, String)| (p.0@, p.1@))
}

/// Drops the spaces of a hexadecimal pattern and puts its letters in upper
/// case.
pub fn hex_pattern(s: &str) -> (r: String)
    ensures
        r@ == hex_pattern_of(s@),
{
    let n = s.unicode_len();
    let mut r = String::new();
    let mut i: usize = 0;
    while i < n
        invariant
            n == s@.len(),
            i <= n,
            r@ == hex_pattern_of(s@.subrange(0, i as int)),
        decreases n - i,
    {
        let c = s.get_char(i);
        assert(s@.subrange(0, i + 1).drop_last() =~= s@.subrange(0, i as int));
        if c != ' ' {
            let u = if 'a' <= c && c <= 'z' {
                ((c as u32 - 32) as u8) as char
            } else {
                c
            };
            push_char(&mut r, u);
        }
        i = i + 1;
    }
    assert(s@.subrange(0, n as int) =~= s@);
    r
}

/// The bytes as upper-case hexadecimal text, two digits each.
pub fn hex_upper(bytes: &[u8]) -> (r: String)
    ensures
        r@ == hex_text(bytes@),
{
    let mut r = String::new();
    let mut i: usize = 0;
    while i < bytes.len()
        invariant
            i <= bytes@.len(),
            r@ == hex_text(bytes@.subrange(0, i as int)),
        decreases bytes@.len() - i,
    {
        assert(bytes@.subrange(0, i + 1).drop_last() =~= bytes@.subrange(0, i as int));
        push_hex(&mut r, bytes[i] as u64, 2, true);
        i = i + 1;
    }
    assert(bytes@.subrange(0, bytes@.len() as int) =~= bytes@);
    r
}

/// The type of the first rule of `rules` that fires on `text`.
fn find_match(rules: &Vec<(String, String)>, text: &str) -> (r: Option<String>)
    ensures
        opt_text_owned(r) == first_match(rule_texts(rules@), text@),
{
    let mut i: usize = 0;
    assert(rule_texts(rules@).subrange(0, rules@.len() as int) =~= rule_texts(rules@));
    while i < rules.len()
        invariant
            i <= rules@.len(),
            first_match(rule_texts(rules@), text@) == first_match(
                rule_texts(rules@).subrange(i as int, rules@.len() as int),
                text@,
            ),
        decreases rules@.len() - i,
    {
        let ghost rest = rule_texts(rules@).subrange(i as int, rules@.len() as int);
        assert(rest.drop_first() =~= rule_texts(rules@).subrange(i + 1, rules@.len() as int));
        if let Some(true) = regex_check(rules[i].1.as_str(), text) {
            return Some(rules[i].0.clone());
        }
        i = i + 1;
    }
    None
}

pub open spec fn opt_text_owned(o: Option<String>) -> Option<Seq<char>> {
    match o {
        Some(p) => Some(p@),
        None => None,
    }
}

/// How an input of a given type is recognised.
#[derive(Clone, Debug)]
pub struct Header {
    pub regex: String,
    pub hex: Option<bool>,
}

impl Header {
    pub open spec fn spec_is_hex(&self) -> bool {
        self.hex == Some(true)
    }

    /// Whether the pattern is written over the hexadecimal text of the bytes.
    #[verifier::when_used_as_spec(spec_is_hex)]
    pub fn is_hex(&self) -> (r: bool)
        ensures
            r == self.spec_is_hex(),
    {
        match self.hex {
            Some(b) => b,
            None => false,
        }
    }
}

/// The configuration of one input type.
#[derive(Clone, Debug)]
pub struct Settings {
    pub header: Header,
    pub plugin: Plugin,
}

/// Why a configuration was refused.
#[derive(Debug)]
pub enum ConfigError {
    /// The pattern for this type does not compile.
    BadPattern(String),
}

/// Classifies inputs by their leading bytes and finds their plugin.
pub struct PreProcessor {
    /// The plugin of each type, in the order of the configuration.
    pub plugins: Vec<(String, Plugin)>,
    /// (type, pattern) over the bytes read as UTF-8 text.
    pub compiled: Vec<(String, String)>,
    /// (type, pattern) over the bytes as hexadecimal text.
    pub compiled_hex: Vec<(String, String)>,
}

/// The text rules of a configuration, in order.
pub open spec fn text_rules(config: Seq<(String, Settings)>) -> Seq<(Seq<char>, Seq<char>)>
    decreases config.len(),
{
    if config.len() == 0 {
        seq![]
    } else {
        let rest = text_rules(config.drop_last());
        let e = config.last();
        if e.1.header.hex == Some(true) {
            rest
        } else {
            rest.push((e.0@, e.1.header.regex@))
        }
    }
}

/// The hexadecimal rules of a configuration, in order, made ready to match.
pub open spec fn hex_rules(config: Seq<(String, Settings)>) -> Seq<(Seq<char>, Seq<char>)>
    decreases config.len(),
{
    if config.len() == 0 {
        seq![]
    } else {
        let rest = hex_rules(config.drop_last());
        let e = config.last();
        if e.1.header.hex == Some(true) {
            rest.push((e.0@, hex_pattern_of(e.1.header.regex@)))
        } else {
            rest
        }
    }
}

/// Whether every pattern of the configuration compiles.
pub open spec fn config_compiles(config: Seq<(String, Settings)>) -> bool {
    forall|i: int|
        0 <= i < config.len() ==> pattern_compiles(
            #[trigger] effective_pattern(config[i].1.header),
        )
}

/// The pattern that is matched for a header.
pub open spec fn effective_pattern(h: Header) -> Seq<char> {
    if h.hex == Some(true) {
        hex_pattern_of(h.regex@)
    } else {
        h.regex@
    }
}

/// The type names of a configuration, in order.
pub open spec fn config_types(config: Seq<(String, Settings)>) -> Seq<Seq<char>> {
    config.map_values(|e: (String, Settings)| e.0@)
}

/// The first plugin declared for `t`.
pub open spec fn plugin_for(plugins: Seq<(String, Plugin)>, t: Seq<char>) -> Option<Plugin>
    decreases plugins.len(),
{
    if plugins.len() == 0 {
        None
    } else if plugins[0].0@ == t {
        Some(plugins[0].1)
    } else {
        plugin_for(plugins.drop_first(), t)
    }
}

impl PreProcessor {
    /// The type that the rules give to an input whose leading bytes are
    /// `head`: the first text rule that fires, else the first hexadecimal one.
    pub open spec fn classified(&self, head: Seq<u8>) -> Option<Seq<char>> {
        match first_match(rule_texts(self.compiled@), lossy_text(head)) {
            Some(t) => Some(t),
            None => first_match(rule_texts(self.compiled_hex@), hex_text(head)),
        }
    }

    /// Builds the classifier of a configuration. Fails on the first entry,
    /// in order, whose pattern does not compile.
    pub fn new(config: Vec<(String, Settings)>) -> (r: Result<PreProcessor, ConfigError>)
        ensures
            r is Ok <==> config_compiles(config@),
            r matches Ok(pp) ==> rule_texts(pp.compiled@) == text_rules(config@)
                && rule_texts(pp.compiled_hex@) == hex_rules(config@)
                && pp.plugins@.len() == config@.len()
                && forall|i: int|
                0 <= i < config@.len() ==> (#[trigger] pp.plugins@[i]).0@ == config@[i].0@
                    && pp.plugins@[i].1 == config@[i].1.plugin,
            r matches Err(ConfigError::BadPattern(t)) ==> exists|i: int|
                0 <= i < config@.len() && !pattern_compiles(effective_pattern(config@[i].1.header))
                    && t@ == config@[i].0@ && config_compiles(#[trigger] config@.subrange(0, i)),
    {
        let ghost orig = config@;
        let n = config.len();
        let mut rest = config;
        let mut compiled: Vec<(String, String)> = Vec::new();
        let mut compiled_hex: Vec<(String, String)> = Vec::new();
        let mut plugins: Vec<(String, Plugin)> = Vec::new();
        let mut i: usize = 0;
        while i < n
            invariant
                n == orig.len(),
                orig == config@,
                i <= n,
                rest@ == orig.subrange(i as int, n as int),
                rule_texts(compiled@) == text_rules(orig.subrange(0, i as int)),
                rule_texts(compiled_hex@) == hex_rules(orig.subrange(0, i as int)),
                config_compiles(orig.subrange(0, i as int)),
                plugins@.len() == i,
                forall|j: int|
                    0 <= j < i ==> (#[trigger] plugins@[j]).0@ == orig[j].0@ && plugins@[j].1
                        == orig[j].1.plugin,
            decreases n - i,
        {
            let entry = rest.remove(0);
            assert(entry == orig[i as int]);
            let ghost pre = orig.subrange(0, i as int);
            let ghost next = orig.subrange(0, i + 1);
            assert(next.drop_last() =~= pre);
            assert(next.last() == entry);
            let hex = entry.1.header.is_hex();
            let pattern = if hex {
                hex_pattern(entry.1.header.regex.as_str())
            } else {
                entry.1.header.regex.clone()
            };
            assert(pattern@ == effective_pattern(entry.1.header));
            if regex_check(pattern.as_str(), "").is_none() {
                assert(!pattern_compiles(effective_pattern(orig[i as int].1.header)));
                assert(!config_compiles(orig));
                assert(config_compiles(config@.subrange(0, i as int)));
                return Err(ConfigError::BadPattern(entry.0));
            }
            assert(config_compiles(next)) by {
                assert forall|j: int| 0 <= j < next.len() implies pattern_compiles(
                    #[trigger] effective_pattern(next[j].1.header),
                ) by {
                    if j < i {
                        assert(next[j] == pre[j]);
                    }
                }
            }
            let ghost prev_text = compiled@;
            let ghost prev_hex = compiled_hex@;
            let name = entry.0;
            if hex {
                compiled_hex.push((name.clone(), pattern));
                assert(rule_texts(compiled_hex@) =~= rule_texts(prev_hex).push((name@, pattern@)));
            } else {
                compiled.push((name.clone(), pattern));
                assert(rule_texts(compiled@) =~= rule_texts(prev_text).push((name@, pattern@)));
            }
            plugins.push((name, entry.1.plugin));
            i = i + 1;
        }
        assert(orig.subrange(0, n as int) =~= orig);
        Ok(PreProcessor { plugins, compiled, compiled_hex })
    }
}

/// Why an input is not dispatched.
#[derive(Debug)]
pub enum Skip {
    /// No rule recognised the input.
    Undetermined,
    /// The input's type has no plugin.
    NotConfigured(String),
}

/// An input whose type and plugin are known. `head` holds the leading bytes
/// that were read to classify it; they are delivered to the plugin ahead of
/// the rest of the input.
#[derive(Debug)]
pub struct PreProcessedInput {
    pub task_id: TaskId,
    pub item_path: String,
    pub item_type: String,
    pub plugin: PreppedPlugin,
    pub head: Vec<u8>,
}

impl PreProcessor {
    /// The type of an input whose leading bytes are `head`.
    pub fn get_file_type(&self, head: &[u8]) -> (r: Option<String>)
        ensures
            opt_text_owned(r) == self.classified(head@),
    {
        let text = utf8_lossy(head);
        match find_match(&self.compiled, text.as_str()) {
            Some(t) => Some(t),
            None => {
                let hex = hex_upper(head);
                find_match(&self.compiled_hex, hex.as_str())
            },
        }
    }

    /// The plugin declared for type `t`.
    pub fn plugin(&self, t: &str) -> (r: Option<&Plugin>)
        ensures
            match plugin_for(self.plugins@, t@) {
                Some(p) => r == Some(&p),
                None => r.is_none(),
            },
    {
        let mut i: usize = 0;
        assert(self.plugins@.subrange(0, self.plugins@.len() as int) =~= self.plugins@);
        while i < self.plugins.len()
            invariant
                i <= self.plugins@.len(),
                plugin_for(self.plugins@, t@) == plugin_for(
                    self.plugins@.subrange(i as int, self.plugins@.len() as int),
                    t@,
                ),
            decreases self.plugins@.len() - i,
        {
            let ghost rest = self.plugins@.subrange(i as int, self.plugins@.len() as int);
            assert(rest.drop_first() =~= self.plugins@.subrange(i + 1, self.plugins@.len() as int));
            if same_text(self.plugins[i].0.as_str(), t) {
                return Some(&self.plugins[i].1);
            }
            i = i + 1;
        }
        None
    }

    /// Classifies an input from its leading bytes `head` and plans the run
    /// of its plugin, with fresh paths under `dir`, the working directory.
    /// `file_path` is the input's file when it has one.
    pub fn pre_process(
        &self,
        task_id: TaskId,
        item_path: String,
        file_path: Option<&String>,
        head: Vec<u8>,
        dir: &str,
    ) -> (r: Result<PreProcessedInput, Skip>)
        ensures
            match self.classified(head@) {
                None => r matches Err(Skip::Undetermined),
                Some(t) => match plugin_for(self.plugins@, t) {
                    None => r matches Err(Skip::NotConfigured(u)) && u@ == t,
                    Some(p) => r matches Ok(ppi) && ppi.task_id == task_id && ppi.item_path@
                        == item_path@ && ppi.item_type@ == t && ppi.head@ == head@ && exists|
                        a: u64,
                        b: u64,
                    |
                        p.planned(
                            ppi.plugin,
                            opt_text(file_path),
                            temp_path(dir@, a),
                            temp_path(dir@, b),
                        ),
                },
            },
    {
        match self.get_file_type(head.as_slice()) {
            None => Err(Skip::Undetermined),
            Some(item_type) => match self.plugin(item_type.as_str()) {
                None => Err(Skip::NotConfigured(item_type)),
                Some(plugin) => {
                    let prepped = plugin.prep(file_path, dir);
                    Ok(PreProcessedInput { task_id, item_path, item_type, plugin: prepped, head })
                },
            },
        }
    }
}

/// The leading bytes read to classify an input.
pub open spec fn head_of(data: Seq<u8>) -> Seq<u8> {
    if data.len() <= HEAD_LEN {
        data
    } else {
        data.subrange(0, HEAD_LEN as int)
    }
}

/// Classifying an input consumes none of it: the head read for the
/// classifier, kept by `pre_process`, followed by the rest of the input
/// gives back the input byte for byte.
pub proof fn lemma_head_then_rest(data: Seq<u8>)
    ensures
        head_of(data) + data.subrange(head_of(data).len() as int, data.len() as int) == data,
{
    assert(head_of(data) + data.subrange(head_of(data).len() as int, data.len() as int) =~= data);
}

} // verus!
