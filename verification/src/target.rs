//! Architecture classifier.
//!
//! Scans the raw codegen-flag stream for the target-architecture directive,
//! checks the required family prefix, and derives the default parallel
//! execution width from the architecture generation and the enabled
//! features.

use vstd::prelude::*;
use vstd::string::StrSliceExecFns;

use crate::features::FeatureSet;
use crate::flags::CodegenFlag;
use crate::util::str_eq;

verus! {

/// A fatal build-configuration fault: the build must abort and report.
#[derive(Debug)]
pub enum ConfigurationError {
    /// No target-architecture directive carries a value.
    MissingTargetCpu,
    /// The configured target architecture (carried here) lacks the
    /// required family prefix.
    MissingFamilyPrefix(String),
}

/// The lane count of one scheduling unit (wavefront).
#[derive(Clone, Copy, PartialEq, Eq, Structural, Debug)]
pub enum ExecutionWidth {
    /// 32 lanes per scheduling unit.
    W32,
    /// 64 lanes per scheduling unit.
    W64,
}

impl ExecutionWidth {
    /// The numeric lane count.
    pub open spec fn spec_lanes(self) -> u32 {
        match self {
            ExecutionWidth::W32 => 32u32,
            ExecutionWidth::W64 => 64u32,
        }
    }

    /// The numeric lane count, as accelerator code can query it at run
    /// time.
    pub fn lanes(self) -> (n: u32)
        ensures
            n == self.spec_lanes(),
    {
        match self {
            ExecutionWidth::W32 => 32,
            ExecutionWidth::W64 => 64,
        }
    }
}

/// The value of the last target-architecture directive of the flag
/// stream, if the last one carries a value.
pub open spec fn spec_last_target_cpu(flags: Seq<CodegenFlag>) -> Option<Seq<char>>
    decreases flags.len(),
{
    if flags.len() == 0 {
        None
    } else if flags.last().opt@ == "target-cpu"@ {
        match flags.last().value {
            Some(v) => Some(v@),
            None => None,
        }
    } else {
        spec_last_target_cpu(flags.drop_last())
    }
}

/// Whether an identifier carries the required architecture family prefix.
pub open spec fn has_family_prefix(s: Seq<char>) -> bool {
    s.len() >= 3 && s[0] == 'g' && s[1] == 'f' && s[2] == 'x'
}

/// The target architecture: the full identifier and its version suffix
/// (the identifier with the family prefix removed).
#[derive(Debug)]
pub struct Target {
    /// The full target identifier, e.g. family prefix plus version.
    pub name: String,
    /// The version suffix after the family prefix.
    pub gfxip: String,
}

impl Target {
    /// The suffix is exactly the identifier with its three-character
    /// family prefix removed.
    pub open spec fn wf(&self) -> bool {
        has_family_prefix(self.name@) && self.gfxip@ == self.name@.subrange(
            3,
            self.name@.len() as int,
        )
    }
}

/// Whether a version suffix names the three-digit generation that only
/// runs 64 lanes wide: three characters, the first a `9`.
pub open spec fn is_gfx9_family(gfxip: Seq<char>) -> bool {
    gfxip.len() == 3 && gfxip[0] == '9'
}

/// Whether a version suffix names the generic variant of that generation:
/// it starts with `9-` and ends with `-generic`.
pub open spec fn is_gfx9_generic(gfxip: Seq<char>) -> bool {
    gfxip.len() >= 8 && gfxip[0] == '9' && gfxip[1] == '-' && gfxip.subrange(
        gfxip.len() - 8,
        gfxip.len() as int,
    ) =~= seq!['-', 'g', 'e', 'n', 'e', 'r', 'i', 'c']
}

/// The feature name that explicitly marks 64-lane execution.
pub open spec fn wave64_marker() -> Seq<char> {
    seq!['w', 'a', 'v', 'e', 'f', 'r', 'o', 'n', 't', 's', 'i', 'z', 'e', '6', '4']
}

/// The default execution width, in precedence order: an explicit width-64
/// feature marker wins; then the three-digit `9` generation; then its
/// generic variant; anything else runs 32 lanes wide.
pub open spec fn spec_execution_width(gfxip: Seq<char>, features: Set<Seq<char>>) -> ExecutionWidth {
    if features.contains(wave64_marker()) {
        ExecutionWidth::W64
    } else if is_gfx9_family(gfxip) {
        ExecutionWidth::W64
    } else if is_gfx9_generic(gfxip) {
        ExecutionWidth::W64
    } else {
        ExecutionWidth::W32
    }
}

/// Law: a target of the three-digit `9` generation resolves to 64 lanes,
/// whatever the features say.
pub proof fn lemma_gfx9_family_is_wave64(gfxip: Seq<char>, features: Set<Seq<char>>)
    requires
        is_gfx9_family(gfxip),
    ensures
        spec_execution_width(gfxip, features) == ExecutionWidth::W64,
{
}

/// Law: a target outside the three-digit `9` generation and its generic
/// variant, with no explicit width-64 marker among the features, resolves
/// to 32 lanes.
pub proof fn lemma_default_width_is_wave32(gfxip: Seq<char>, features: Set<Seq<char>>)
    requires
        !is_gfx9_family(gfxip),
        !is_gfx9_generic(gfxip),
        !features.contains(wave64_marker()),
    ensures
        spec_execution_width(gfxip, features) == ExecutionWidth::W32,
{
}

/// Extracts the target architecture of the raw flag stream: the last
/// target-architecture directive wins; the build configuration is faulty
/// when none carries a value or the value lacks the family prefix.
pub fn classify_target(flags: &Vec<CodegenFlag>) -> (r: Result<Target, ConfigurationError>)
    ensures
        match r {
            Ok(t) => {
                &&& t.wf()
                &&& spec_last_target_cpu(flags@) == Some(t.name@)
            },
            Err(e) => match e {
                ConfigurationError::MissingTargetCpu => spec_last_target_cpu(flags@) is None,
                ConfigurationError::MissingFamilyPrefix(cpu) => {
                    &&& spec_last_target_cpu(flags@) == Some(cpu@)
                    &&& !has_family_prefix(cpu@)
                },
            },
        },
{
    let n = flags.len();
    let mut cpu: Option<String> = None;
    let mut i: usize = 0;
    proof {
        assert(flags@.subrange(0, 0) =~= Seq::<CodegenFlag>::empty());
    }
    while i < n
        invariant
            n == flags@.len(),
            i <= n,
            match cpu {
                Some(ref c) => spec_last_target_cpu(flags@.subrange(0, i as int)) == Some(c@),
                None => spec_last_target_cpu(flags@.subrange(0, i as int)) is None,
            },
        decreases n - i,
    {
        let ghost prefix1 = flags@.subrange(0, i + 1);
        proof {
            assert(prefix1.drop_last() =~= flags@.subrange(0, i as int));
            assert(prefix1.last() == flags@[i as int]);
        }
        let f = &flags[i];
        if str_eq(f.opt.as_str(), "target-cpu") {
            cpu = f.value.clone();
        }
        i = i + 1;
    }
    proof {
        assert(flags@.subrange(0, n as int) =~= flags@);
    }
    match cpu {
        None => Err(ConfigurationError::MissingTargetCpu),
        Some(name) => {
            let len = name.as_str().unicode_len();
            if len >= 3 && name.as_str().get_char(0) == 'g' && name.as_str().get_char(1) == 'f'
                && name.as_str().get_char(2) == 'x' {
                let gfxip = name.as_str().substring_char(3, len);
                let gfxip = String::from_str(gfxip);
                Ok(Target { name, gfxip })
            } else {
                Err(ConfigurationError::MissingFamilyPrefix(name))
            }
        },
    }
}

/// Derives the default execution width of a classified target under the
/// normalized features, in the specified precedence order.
pub fn execution_width(target: &Target, features: &FeatureSet) -> (w: ExecutionWidth)
    ensures
        w == spec_execution_width(target.gfxip@, features@),
{
    proof {
        reveal_strlit("wavefrontsize64");
        assert("wavefrontsize64"@ =~= wave64_marker());
    }
    if features.contains("wavefrontsize64") {
        return ExecutionWidth::W64;
    }
    let ip = target.gfxip.as_str();
    let len = ip.unicode_len();
    if len == 3 && ip.get_char(0) == '9' {
        return ExecutionWidth::W64;
    }
    proof {
        assert(!is_gfx9_family(target.gfxip@));
    }
    if len >= 8 && ip.get_char(0) == '9' && ip.get_char(1) == '-' {
        let tail_ok = ip.get_char(len - 8) == '-' && ip.get_char(len - 7) == 'g' && ip.get_char(
            len - 6,
        ) == 'e' && ip.get_char(len - 5) == 'n' && ip.get_char(len - 4) == 'e' && ip.get_char(
            len - 3,
        ) == 'r' && ip.get_char(len - 2) == 'i' && ip.get_char(len - 1) == 'c';
        if tail_ok {
            proof {
                assert(ip@.subrange(len - 8, len as int) =~= seq![
                    '-',
                    'g',
                    'e',
                    'n',
                    'e',
                    'r',
                    'i',
                    'c',
                ]);
            }
            return ExecutionWidth::W64;
        }
        proof {
            if is_gfx9_generic(target.gfxip@) {
                let t = ip@.subrange(len - 8, len as int);
                assert(t[0] == '-' && t[1] == 'g' && t[2] == 'e' && t[3] == 'n' && t[4] == 'e'
                    && t[5] == 'r' && t[6] == 'i' && t[7] == 'c');
                assert(false);
            }
        }
        return ExecutionWidth::W32;
    }
    proof {
        assert(!is_gfx9_generic(target.gfxip@));
    }
    ExecutionWidth::W32
}

} // verus!
