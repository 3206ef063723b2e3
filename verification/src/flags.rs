//! The raw build-time codegen-flag stream, and the feature directives
//! parsed out of it.
//!
//! The build configuration hands the library an ordered list of codegen
//! directives, each an option name with an optional value. The feature
//! directives among them (`target-feature` entries) become an ordered
//! `Add`/`Remove` stream for the feature-set normalizer; the architecture
//! classifier scans the same list for the target architecture.

use vstd::prelude::*;
use vstd::string::StrSliceExecFns;

use crate::util::str_eq;

verus! {

/// One codegen directive of the raw build-flag stream: an option name and
/// an optional value.
#[derive(Debug)]
pub struct CodegenFlag {
    /// The option name, e.g. `target-cpu`.
    pub opt: String,
    /// The option value, if one was given.
    pub value: Option<String>,
}

/// One feature directive: enable or disable a named hardware feature.
#[derive(Debug)]
pub enum Directive {
    /// Enable the feature. The stored name may still carry leading enable
    /// markers (`+`); they are stripped when the directive is applied.
    Add(String),
    /// Disable the feature.
    Remove(String),
}

/// The mathematical form of a feature directive, over character sequences.
pub enum DirectiveV {
    /// Enable the named feature.
    Add(Seq<char>),
    /// Disable the named feature.
    Remove(Seq<char>),
}

impl View for Directive {
    type V = DirectiveV;

    open spec fn view(&self) -> DirectiveV {
        match self {
            Directive::Add(name) => DirectiveV::Add(name@),
            Directive::Remove(name) => DirectiveV::Remove(name@),
        }
    }
}

/// A name with all leading enable markers (`+`) removed.
pub open spec fn strip_plus_spec(s: Seq<char>) -> Seq<char>
    decreases s.len(),
{
    if s.len() > 0 && s[0] == '+' {
        strip_plus_spec(s.drop_first())
    } else {
        s
    }
}

/// Removes all leading enable markers (`+`) from a feature name.
pub fn strip_plus(s: &str) -> (r: String)
    ensures
        r@ == strip_plus_spec(s@),
{
    let len = s.unicode_len();
    proof {
        assert(s@.subrange(0, len as int) =~= s@);
    }
    let mut i: usize = 0;
    while i < len && s.get_char(i) == '+'
        invariant
            len == s@.len(),
            i <= len,
            strip_plus_spec(s@) == strip_plus_spec(s@.subrange(i as int, len as int)),
        decreases len - i,
    {
        i = i + 1;
        proof {
            assert(s@.subrange(i - 1, len as int).drop_first() =~= s@.subrange(
                i as int,
                len as int,
            ));
        }
    }
    let r = s.substring_char(i, len);
    String::from_str(r)
}

/// The feature directives contributed by one codegen flag: one directive
/// for a `target-feature` flag that carries a value, none otherwise. A
/// value with a leading disable marker (`-`) is a removal of the rest; any
/// other value is an addition.
pub open spec fn flag_directives(f: CodegenFlag) -> Seq<DirectiveV> {
    if f.opt@ == "target-feature"@ {
        match f.value {
            Some(v) => if v@.len() > 0 && v@[0] == '-' {
                seq![DirectiveV::Remove(v@.drop_first())]
            } else {
                seq![DirectiveV::Add(v@)]
            },
            None => Seq::empty(),
        }
    } else {
        Seq::empty()
    }
}

/// The ordered feature-directive stream of a whole flag list.
pub open spec fn extracted_directives(flags: Seq<CodegenFlag>) -> Seq<DirectiveV>
    decreases flags.len(),
{
    if flags.len() == 0 {
        Seq::empty()
    } else {
        extracted_directives(flags.drop_last()) + flag_directives(flags.last())
    }
}

/// Parses the ordered feature-directive stream out of the raw flag list.
/// Flags other than `target-feature` are ignored here.
pub fn extract_feature_directives(flags: &Vec<CodegenFlag>) -> (r: Vec<Directive>)
    ensures
        r@.map_values(|d: Directive| d@) == extracted_directives(flags@),
{
    let mut r: Vec<Directive> = Vec::new();
    let n = flags.len();
    let mut i: usize = 0;
    while i < n
        invariant
            n == flags@.len(),
            i <= n,
            r@.map_values(|d: Directive| d@) == extracted_directives(flags@.subrange(0, i as int)),
        decreases n - i,
    {
        let ghost prefix = flags@.subrange(0, i as int);
        let ghost prefix1 = flags@.subrange(0, i + 1);
        proof {
            assert(prefix1.drop_last() =~= prefix);
            assert(prefix1.last() == flags@[i as int]);
        }
        let f = &flags[i];
        if str_eq(f.opt.as_str(), "target-feature") {
            match &f.value {
                Some(v) => {
                    let vlen = v.as_str().unicode_len();
                    if vlen > 0 && v.as_str().get_char(0) == '-' {
                        let rest = v.as_str().substring_char(1, vlen);
                        proof {
                            assert(v@.subrange(1, vlen as int) =~= v@.drop_first());
                        }
                        r.push(Directive::Remove(String::from_str(rest)));
                    } else {
                        r.push(Directive::Add(v.clone()));
                    }
                },
                None => {},
            }
        }
        proof {
            assert(r@.map_values(|d: Directive| d@) =~= extracted_directives(prefix1));
        }
        i = i + 1;
    }
    proof {
        assert(flags@.subrange(0, n as int) =~= flags@);
    }
    r
}

} // verus!
