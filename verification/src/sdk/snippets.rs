//! Ready-made command lines for each SDK operation and output format.
use std::collections::HashMap;

use vstd::prelude::*;
use vstd::string::*;

use crate::sdk::{format_name, OutputFormat, SdkError};

verus! {

broadcast use vstd::std_specs::hash::group_hash_axioms;

/// An SDK operation a snippet can show.
#[derive(Debug, Clone, Copy, PartialEq, Eq, Structural, Hash)]
pub enum SnippetOperation {
    Doctor,
    Verify,
    Explain,
    SupportBundle,
    CiPreflight,
    Demo,
}

pub open spec fn operation_name(op: SnippetOperation) -> Seq<char> {
    match op {
        SnippetOperation::Doctor => "doctor"@,
        SnippetOperation::Verify => "verify"@,
        SnippetOperation::Explain => "explain"@,
        SnippetOperation::SupportBundle => "support-bundle"@,
        SnippetOperation::CiPreflight => "ci-preflight"@,
        SnippetOperation::Demo => "demo"@,
    }
}

/// The position of an operation in the list of all operations.
pub open spec fn operation_index(op: SnippetOperation) -> nat {
    match op {
        SnippetOperation::Doctor => 0,
        SnippetOperation::Verify => 1,
        SnippetOperation::Explain => 2,
        SnippetOperation::SupportBundle => 3,
        SnippetOperation::CiPreflight => 4,
        SnippetOperation::Demo => 5,
    }
}

/// The position of a format among human, JSON and SARIF.
pub open spec fn format_index(f: OutputFormat) -> nat {
    match f {
        OutputFormat::Human => 0,
        OutputFormat::Json => 1,
        OutputFormat::Sarif => 2,
    }
}

/// The key under which the registry stores the snippet of an operation and a format.
pub open spec fn snippet_key(op: SnippetOperation, f: OutputFormat) -> u64 {
    (operation_index(op) * 3 + format_index(f)) as u64
}

impl SnippetOperation {
    /// The operation's command name.
    pub fn as_str(&self) -> (r: &'static str)
        ensures
            r@ == operation_name(*self),
    {
        match self {
            SnippetOperation::Doctor => "doctor",
            SnippetOperation::Verify => "verify",
            SnippetOperation::Explain => "explain",
            SnippetOperation::SupportBundle => "support-bundle",
            SnippetOperation::CiPreflight => "ci-preflight",
            SnippetOperation::Demo => "demo",
        }
    }

    /// Every operation, in declaration order.
    pub fn all() -> (r: Vec<SnippetOperation>)
        ensures
            r.len() == 6,
            forall|i: int| 0 <= i < 6 ==> operation_index(#[trigger] r@[i]) == i,
    {
        vec![
            SnippetOperation::Doctor,
            SnippetOperation::Verify,
            SnippetOperation::Explain,
            SnippetOperation::SupportBundle,
            SnippetOperation::CiPreflight,
            SnippetOperation::Demo,
        ]
    }
}

fn key_of(op: SnippetOperation, f: OutputFormat) -> (r: u64)
    ensures
        r == snippet_key(op, f),
{
    let o: u64 = match op {
        SnippetOperation::Doctor => 0,
        SnippetOperation::Verify => 1,
        SnippetOperation::Explain => 2,
        SnippetOperation::SupportBundle => 3,
        SnippetOperation::CiPreflight => 4,
        SnippetOperation::Demo => 5,
    };
    let g: u64 = match f {
        OutputFormat::Human => 0,
        OutputFormat::Json => 1,
        OutputFormat::Sarif => 2,
    };
    o * 3 + g
}

/// Different operation and format pairs have different keys.
pub proof fn snippet_key_injective(a: SnippetOperation, f: OutputFormat, b: SnippetOperation, g: OutputFormat)
    ensures
        snippet_key(a, f) == snippet_key(b, g) <==> (a == b && f == g),
{
}

/// Snippets keyed by operation and output format.
#[derive(Debug, Clone)]
pub struct SnippetRegistry {
    entries: HashMap<u64, String>,
}

impl View for SnippetRegistry {
    type V = Map<(SnippetOperation, OutputFormat), Seq<char>>;

    closed spec fn view(&self) -> Map<(SnippetOperation, OutputFormat), Seq<char>> {
        Map::new(
            |k: (SnippetOperation, OutputFormat)| self.entries@.contains_key(snippet_key(k.0, k.1)),
            |k: (SnippetOperation, OutputFormat)| self.entries@[snippet_key(k.0, k.1)]@,
        )
    }
}

impl SnippetRegistry {
    /// An empty registry.
    pub fn new() -> (r: Self)
        ensures
            r@ == Map::<(SnippetOperation, OutputFormat), Seq<char>>::empty(),
    {
        let r = SnippetRegistry { entries: HashMap::new() };
        assert(r@ =~= Map::<(SnippetOperation, OutputFormat), Seq<char>>::empty());
        r
    }

    /// Stores `snippet` for `operation` in `format`, replacing what was there.
    pub fn insert(&mut self, operation: SnippetOperation, format: OutputFormat, snippet: String)
        ensures
            final(self)@ == old(self)@.insert((operation, format), snippet@),
    {
        let key = key_of(operation, format);
        let ghost text = snippet@;
        self.entries.insert(key, snippet);
        proof {
            assert forall|k: (SnippetOperation, OutputFormat)| #![auto]
                final(self)@.contains_key(k) == old(self)@.insert((operation, format), text).contains_key(k) by {
                snippet_key_injective(k.0, k.1, operation, format);
            }
            assert forall|k: (SnippetOperation, OutputFormat)| #![auto]
                final(self)@.contains_key(k) implies final(self)@[k] == old(self)@.insert((operation, format), text)[k] by {
                snippet_key_injective(k.0, k.1, operation, format);
            }
            assert(final(self)@ =~= old(self)@.insert((operation, format), text));
        }
    }

    /// The snippet stored for `operation` in `format`.
    pub fn snippet(&self, operation: SnippetOperation, format: OutputFormat) -> (r: Result<&str, SdkError>)
        ensures
            self@.contains_key((operation, format)) ==> (r matches Ok(s) && s@ == self@[(operation, format)]),
            !self@.contains_key((operation, format)) ==> (r matches Err(SdkError::NotImplemented(m))
                && m@ == "snippet not available"@),
    {
        let key = key_of(operation, format);
        match self.entries.get(&key) {
            Some(value) => Ok(value.as_str()),
            None => Err(SdkError::NotImplemented("snippet not available")),
        }
    }

    /// An owned copy of the snippet stored for `operation` in `format`.
    pub fn generate(&self, operation: SnippetOperation, format: OutputFormat) -> (r: Result<String, SdkError>)
        ensures
            self@.contains_key((operation, format)) ==> (r matches Ok(s) && s@ == self@[(operation, format)]),
            !self@.contains_key((operation, format)) ==> (r matches Err(SdkError::NotImplemented(m))
                && m@ == "snippet not available"@),
    {
        match self.snippet(operation, format) {
            Ok(s) => Ok(s.to_string()),
            Err(e) => Err(e),
        }
    }
}

/// The command line shown for an operation in a format.
pub open spec fn default_snippet_text(op: SnippetOperation, f: OutputFormat) -> Seq<char> {
    match op {
        SnippetOperation::Doctor => "tasc-sdk-cli doctor --operation verify --format "@ + format_name(f),
        SnippetOperation::Verify => "tasc-sdk-cli verify examples/minimal-local --format "@ + format_name(f),
        SnippetOperation::Explain => "tasc-sdk-cli explain last --format "@ + format_name(f),
        SnippetOperation::SupportBundle => "tasc-sdk-cli support-bundle --archive"@,
        SnippetOperation::CiPreflight => "tasc-sdk-cli ci-preflight --strict --format "@ + format_name(f),
        SnippetOperation::Demo => "tasc-sdk-cli demo --format "@ + format_name(f),
    }
}

fn default_snippet(operation: SnippetOperation, format: OutputFormat) -> (r: String)
    ensures
        r@ == default_snippet_text(operation, format),
{
    let fmt = format.as_str();
    let prefix: &str = match operation {
        SnippetOperation::Doctor => "tasc-sdk-cli doctor --operation verify --format ",
        SnippetOperation::Verify => "tasc-sdk-cli verify examples/minimal-local --format ",
        SnippetOperation::Explain => "tasc-sdk-cli explain last --format ",
        SnippetOperation::SupportBundle => {
            return "tasc-sdk-cli support-bundle --archive".to_string();
        },
        SnippetOperation::CiPreflight => "tasc-sdk-cli ci-preflight --strict --format ",
        SnippetOperation::Demo => "tasc-sdk-cli demo --format ",
    };
    let mut out = prefix.to_string();
    out.append(fmt);
    out
}

fn format_at(j: usize) -> (r: OutputFormat)
    requires
        j < 3,
    ensures
        format_index(r) == j,
{
    if j == 0 {
        OutputFormat::Human
    } else if j == 1 {
        OutputFormat::Json
    } else {
        OutputFormat::Sarif
    }
}

impl Default for SnippetRegistry {
    /// The registry holding the standard command line of every operation in every format.
    fn default() -> (r: Self)
        ensures
            forall|k: (SnippetOperation, OutputFormat)| #[trigger] r@.contains_key(k),
            forall|k: (SnippetOperation, OutputFormat)| #[trigger] r@[k] == default_snippet_text(k.0, k.1),
    {
        let mut registry = SnippetRegistry::new();
        let ops = SnippetOperation::all();
        let mut i: usize = 0;
        while i < 6
            invariant
                i <= 6,
                ops.len() == 6,
                forall|n: int| 0 <= n < 6 ==> operation_index(#[trigger] ops@[n]) == n,
                forall|k: (SnippetOperation, OutputFormat)| #[trigger] registry@.contains_key(k)
                    <==> operation_index(k.0) < i,
                forall|k: (SnippetOperation, OutputFormat)| registry@.contains_key(k)
                    ==> #[trigger] registry@[k] == default_snippet_text(k.0, k.1),
            decreases 6 - i,
        {
            let operation = ops[i];
            let mut j: usize = 0;
            while j < 3
                invariant
                    i < 6,
                    j <= 3,
                    operation_index(operation) == i,
                    forall|k: (SnippetOperation, OutputFormat)| #[trigger] registry@.contains_key(k)
                        <==> (operation_index(k.0) < i || (k.0 == operation && format_index(k.1) < j)),
                    forall|k: (SnippetOperation, OutputFormat)| registry@.contains_key(k)
                        ==> #[trigger] registry@[k] == default_snippet_text(k.0, k.1),
                decreases 3 - j,
            {
                let format = format_at(j);
                let text = default_snippet(operation, format);
                registry.insert(operation, format, text);
                j = j + 1;
            }
            proof {
                assert forall|k: (SnippetOperation, OutputFormat)| #[trigger] registry@.contains_key(k)
                    <==> operation_index(k.0) < i + 1 by {
                    if operation_index(k.0) == i {
                        assert(k.0 == operation);
                    }
                }
            }
            i = i + 1;
        }
        registry
    }
}

/// A snippet stored in a registry is what a later lookup of the same operation and format
/// returns, and storing it leaves every other operation and format as it was.
pub proof fn snippet_after_insert(
    reg: Map<(SnippetOperation, OutputFormat), Seq<char>>,
    op: SnippetOperation,
    f: OutputFormat,
    text: Seq<char>,
    other: (SnippetOperation, OutputFormat),
)
    ensures
        reg.insert((op, f), text).contains_key((op, f)),
        reg.insert((op, f), text)[(op, f)] == text,
        other != (op, f) ==> (reg.insert((op, f), text).contains_key(other) == reg.contains_key(other)),
        other != (op, f) && reg.contains_key(other) ==> reg.insert((op, f), text)[other] == reg[other],
{
}

/// What a registry holds after the inserts, in order, of (operation, format, text) on top
/// of `start`: each `insert` maps its key to its text, as `SnippetRegistry::insert` states.
pub open spec fn after_inserts(
    start: Map<(SnippetOperation, OutputFormat), Seq<char>>,
    inserts: Seq<(SnippetOperation, OutputFormat, Seq<char>)>,
) -> Map<(SnippetOperation, OutputFormat), Seq<char>>
    decreases inserts.len(),
{
    if inserts.len() == 0 {
        start
    } else {
        let last = inserts.last();
        after_inserts(start, inserts.drop_last()).insert((last.0, last.1), last.2)
    }
}

/// The text of the last of the inserts made for `key`, if any was.
pub open spec fn last_inserted(
    inserts: Seq<(SnippetOperation, OutputFormat, Seq<char>)>,
    key: (SnippetOperation, OutputFormat),
) -> Option<Seq<char>>
    decreases inserts.len(),
{
    if inserts.len() == 0 {
        None
    } else if (inserts.last().0, inserts.last().1) == key {
        Some(inserts.last().2)
    } else {
        last_inserted(inserts.drop_last(), key)
    }
}

/// After a new registry and any sequence of inserts, a registry holds a snippet for an
/// operation and format exactly when some insert was made for them, and then it is the text
/// of the last such insert; otherwise `snippet` answers that it is not available.
pub proof fn snippet_after_inserts(
    inserts: Seq<(SnippetOperation, OutputFormat, Seq<char>)>,
    key: (SnippetOperation, OutputFormat),
)
    ensures
        after_inserts(Map::empty(), inserts).contains_key(key) <==> last_inserted(inserts, key) is Some,
        last_inserted(inserts, key) matches Some(t) ==> after_inserts(Map::empty(), inserts)[key] == t,
    decreases inserts.len(),
{
    if inserts.len() > 0 {
        snippet_after_inserts(inserts.drop_last(), key);
    }
}

} // verus!
