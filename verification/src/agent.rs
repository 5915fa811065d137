//! Agents and how they are referred to: the reference syntax
//! (`namespace@pack/sub/path` or a local file path), the role-tagged
//! prompt parts, the inline per-part options directive, and the agent
//! value the task pipeline runs.
use vstd::prelude::*;

use crate::config::AgentOptions;
use crate::text::{chars_vec, eq_chars, spec_split_first, split_first_char, string_from_chars,
    trim_chars, trim_spec};

verus! {

// region: agent references

/// A pack reference as written: optional namespace, pack name, optional
/// sub path.
#[derive(Debug)]
pub struct PartialPackRef {
    pub namespace: Option<String>,
    pub name: String,
    pub sub_path: Option<String>,
}

/// A reference to an agent: a local file path, or a pack reference
/// (the input contained `@`).
#[derive(Debug)]
pub enum PartialAgentRef {
    LocalPath(String),
    PackRef(PartialPackRef),
}

/// What parsing an agent reference must produce.
pub open spec fn agent_ref_ok(r: PartialAgentRef, s: Seq<char>) -> bool {
    match r {
        PartialAgentRef::LocalPath(p) => !s.contains('@') && p@ == s,
        PartialAgentRef::PackRef(pr) => {
            let ns = trim_spec(spec_split_first(s, '@').0);
            let remainder = trim_spec(spec_split_first(s, '@').1->0);
            let split = spec_split_first(remainder, '/');
            &&& s.contains('@')
            &&& pr.name@ == split.0
            &&& match pr.sub_path {
                Some(sub) => split.1 == Some(sub@),
                None => split.1 is None,
            }
            &&& match pr.namespace {
                Some(n) => ns.len() > 0 && n@ == ns,
                None => ns.len() == 0,
            }
        },
    }
}

impl PartialAgentRef {
    /// Parses an agent reference. With a `@` the input is split into a
    /// namespace (trimmed; empty means none) and a remainder (trimmed),
    /// and the remainder into a pack name and an optional sub path at
    /// the first `/`. Without `@` the input is a local file path.
    pub fn new(input: &str) -> (r: Self)
        ensures
            agent_ref_ok(r, input@),
    {
        let chars = chars_vec(input);
        proof {
            chars@.index_of_first_ensures('@');
        }
        let (ns_raw, rest) = split_first_char(chars.as_slice(), '@');
        match rest {
            Some(remainder_raw) => {
                let ns_part = trim_chars(ns_raw.as_slice());
                let remainder = trim_chars(remainder_raw.as_slice());
                proof {
                    remainder@.index_of_first_ensures('/');
                }
                let (name_part, sub) = split_first_char(remainder.as_slice(), '/');
                let name = string_from_chars(name_part.as_slice());
                let sub_path = match sub {
                    Some(sub_part) => Some(string_from_chars(sub_part.as_slice())),
                    None => None,
                };
                let namespace = if ns_part.len() == 0 {
                    None
                } else {
                    Some(string_from_chars(ns_part.as_slice()))
                };
                proof {
                    assert(chars@.contains('@'));
                }
                PartialAgentRef::PackRef(PartialPackRef { namespace, name, sub_path })
            },
            None => PartialAgentRef::LocalPath(input.to_owned()),
        }
    }
}

// endregion: agent references

// region: prompt parts

/// The role a prompt part contributes as; roles map one-to-one onto
/// chat-message roles.
#[derive(Debug, Clone, Copy, PartialEq, Eq, Structural)]
pub enum PartKind {
    System,
    User,
    Assistant,
}

/// One templated message segment of an agent: role, raw template text,
/// and an optional inline options directive.
#[derive(Debug)]
pub struct PromptPart {
    pub kind: PartKind,
    pub content: String,
    pub options_str: Option<String>,
}

impl PromptPart {
    pub fn new(kind: PartKind, content: String, options_str: Option<String>) -> (r: PromptPart)
        ensures
            r.kind == kind,
            r.content@ == content@,
            match r.options_str {
                Some(o) => options_str is Some && o@ == options_str->0@,
                None => options_str is None,
            },
    {
        PromptPart { kind, content, options_str }
    }

    /// A structurally equal copy.
    pub fn duplicate(&self) -> (r: PromptPart)
        ensures
            r.kind == self.kind,
            r.content@ == self.content@,
            match r.options_str {
                Some(o) => self.options_str is Some && o@ == self.options_str->0@,
                None => self.options_str is None,
            },
    {
        PromptPart {
            kind: self.kind,
            content: self.content.clone(),
            options_str: match &self.options_str {
                Some(o) => Some(o.clone()),
                None => None,
            },
        }
    }
}

/// Recognized per-part directives: a cache hint.
#[derive(Debug, Clone, Copy, PartialEq, Eq, Structural)]
pub struct PromptPartOptions {
    pub cache: bool,
}

/// What an inline options string means: after trimming, exactly
/// `cache = true` or `cache = false`; the empty string means no options;
/// anything else is unparseable (`None`).
pub open spec fn spec_parse_part_options(s: Seq<char>) -> Option<Option<PromptPartOptions>> {
    let t = trim_spec(s);
    if t.len() == 0 {
        Some(None)
    } else if t == "cache = true"@ {
        Some(Some(PromptPartOptions { cache: true }))
    } else if t == "cache = false"@ {
        Some(Some(PromptPartOptions { cache: false }))
    } else {
        None
    }
}

/// Parses the inline options directive of one prompt part; an options
/// string that is not a recognized directive is an error.
pub fn parse_prompt_part_options(options_str: &str) -> (r: Result<Option<PromptPartOptions>, ()>)
    ensures
        match r {
            Ok(o) => spec_parse_part_options(options_str@) == Some(o),
            Err(_) => spec_parse_part_options(options_str@) is None,
        },
{
    let chars = chars_vec(options_str);
    let t = trim_chars(chars.as_slice());
    if t.len() == 0 {
        return Ok(None);
    }
    let yes = chars_vec("cache = true");
    if eq_chars(t.as_slice(), yes.as_slice()) {
        return Ok(Some(PromptPartOptions { cache: true }));
    }
    let no = chars_vec("cache = false");
    if eq_chars(t.as_slice(), no.as_slice()) {
        return Ok(Some(PromptPartOptions { cache: false }));
    }
    Err(())
}

// endregion: prompt parts

// region: the agent

/// A parsed agent: its configuration, ordered prompt parts, and the
/// optional Data and Output stage scripts. The directory the agent file
/// sits in is kept for script-relative file access.
#[derive(Debug)]
pub struct Agent {
    pub name: String,
    pub file_dir: String,
    pub options: AgentOptions,
    pub prompt_parts: Vec<PromptPart>,
    pub data_script: Option<String>,
    pub output_script: Option<String>,
}

/// Part-by-part structural equality of prompt part lists.
pub open spec fn parts_equal(a: Seq<PromptPart>, b: Seq<PromptPart>) -> bool {
    &&& a.len() == b.len()
    &&& forall|i: int|
        0 <= i < a.len() ==> #[trigger] a[i].kind == b[i].kind && a[i].content@ == b[i].content@
            && (match a[i].options_str {
            Some(o) => b[i].options_str is Some && o@ == b[i].options_str->0@,
            None => b[i].options_str is None,
        })
}

pub open spec fn opt_str_view(o: Option<String>) -> Option<Seq<char>> {
    match o {
        Some(s) => Some(s@),
        None => None,
    }
}

impl Agent {
    pub open spec fn wf(self) -> bool {
        self.options.wf()
    }

    pub fn options_as_ref(&self) -> (r: &AgentOptions)
        ensures
            r == &self.options,
    {
        &self.options
    }

    /// The alias-resolved model of this agent's options.
    pub fn model_resolved(&self) -> (r: Option<&String>)
        requires
            self.wf(),
        ensures
            match r {
                Some(m) => self.options.resolved_model_view() == Some(m@),
                None => self.options.resolved_model_view() is None,
            },
    {
        self.options.resolve_model()
    }

    /// The same agent with its options replaced: the copy-on-write step
    /// of a per-input override. This agent itself is left untouched.
    pub fn new_merge(&self, options_ov: AgentOptions) -> (r: Agent)
        ensures
            r.name@ == self.name@,
            r.file_dir@ == self.file_dir@,
            r.options == options_ov,
            parts_equal(r.prompt_parts@, self.prompt_parts@),
            opt_str_view(r.data_script) == opt_str_view(self.data_script),
            opt_str_view(r.output_script) == opt_str_view(self.output_script),
    {
        let mut parts: Vec<PromptPart> = Vec::new();
        let mut i: usize = 0;
        while i < self.prompt_parts.len()
            invariant
                0 <= i <= self.prompt_parts@.len(),
                parts@.len() == i,
                parts_equal(parts@, self.prompt_parts@.take(i as int)),
            decreases self.prompt_parts@.len() - i,
        {
            let p = self.prompt_parts[i].duplicate();
            parts.push(p);
            i = i + 1;
        }
        proof {
            assert(self.prompt_parts@.take(self.prompt_parts@.len() as int) =~= self.prompt_parts@);
        }
        Agent {
            name: self.name.clone(),
            file_dir: self.file_dir.clone(),
            options: options_ov,
            prompt_parts: parts,
            data_script: match &self.data_script {
                Some(s) => Some(s.clone()),
                None => None,
            },
            output_script: match &self.output_script {
                Some(s) => Some(s.clone()),
                None => None,
            },
        }
    }
}

// endregion: the agent

} // verus!
