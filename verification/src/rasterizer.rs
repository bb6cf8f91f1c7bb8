//! Options that control rasterization, and how their textual settings are read.

use vstd::prelude::*;

verus! {

/// Options that control Pathfinder's behavior.
#[derive(Clone, Debug)]
pub struct RasterizerOptions {
    /// The path to the shaders. If not specified, then the current directory is used.
    pub shader_path: String,
    /// If true, then a geometry shader is used instead of a tessellation shader.
    pub force_geometry_shader: bool,
}

impl Default for RasterizerOptions {
    /// The shaders in the current directory, and no geometry shader.
    fn default() -> (r: RasterizerOptions)
        ensures
            r.shader_path@ == seq!['.'],
            !r.force_geometry_shader,
    {
        proof {
            reveal_strlit(".");
        }
        RasterizerOptions { shader_path: ".".to_owned(), force_geometry_shader: false }
    }
}

/// The ASCII lowercase of a byte.
pub open spec fn ascii_lower(b: u8) -> u8 {
    if 0x41 <= b <= 0x5a {
        (b + 0x20) as u8
    } else {
        b
    }
}

/// True when two byte strings are equal up to ASCII case.
pub open spec fn eq_ignore_ascii_case_spec(a: Seq<u8>, b: Seq<u8>) -> bool {
    a.len() == b.len() && forall|i: int| 0 <= i < a.len() ==> #[trigger] ascii_lower(a[i])
        == ascii_lower(b[i])
}

/// Whether two byte strings are equal up to ASCII case.
pub fn eq_ignore_ascii_case(a: &[u8], b: &[u8]) -> (r: bool)
    ensures
        r == eq_ignore_ascii_case_spec(a@, b@),
{
    if a.len() != b.len() {
        return false;
    }
    let mut i: usize = 0;
    while i < a.len()
        invariant
            i <= a.len() == b.len(),
            forall|j: int| 0 <= j < i ==> #[trigger] ascii_lower(a@[j]) == ascii_lower(b@[j]),
        decreases a.len() - i,
    {
        let x = if 0x41 <= a[i] && a[i] <= 0x5a {
            a[i] + 0x20
        } else {
            a[i]
        };
        let y = if 0x41 <= b[i] && b[i] <= 0x5a {
            b[i] + 0x20
        } else {
            b[i]
        };
        assert(x == ascii_lower(a@[i as int]) && y == ascii_lower(b@[i as int]));
        if x != y {
            return false;
        }
        i = i + 1;
    }
    true
}

/// The value of a boolean setting: false when unset; true for `on`, `yes` or `1` and false
/// for `off`, `no` or `0`, in any ASCII case; `None` for anything else.
pub open spec fn bool_setting_spec(value: Option<Seq<u8>>) -> Option<bool> {
    match value {
        None => Some(false),
        Some(v) => if eq_ignore_ascii_case_spec(v, seq![0x6fu8, 0x6eu8])
            || eq_ignore_ascii_case_spec(v, seq![0x79u8, 0x65u8, 0x73u8])
            || eq_ignore_ascii_case_spec(v, seq![0x31u8]) {
            Some(true)
        } else if eq_ignore_ascii_case_spec(v, seq![0x6fu8, 0x66u8, 0x66u8])
            || eq_ignore_ascii_case_spec(v, seq![0x6eu8, 0x6fu8])
            || eq_ignore_ascii_case_spec(v, seq![0x30u8]) {
            Some(false)
        } else {
            None
        },
    }
}

/// Reads a boolean setting (see `bool_setting_spec`).
pub fn bool_setting(value: Option<&[u8]>) -> (r: Option<bool>)
    ensures
        r == bool_setting_spec(
            match value {
                None => None,
                Some(v) => Some(v@),
            },
        ),
{
    match value {
        None => Some(false),
        Some(v) => {
            let on: [u8; 2] = [0x6f, 0x6e];
            let yes: [u8; 3] = [0x79, 0x65, 0x73];
            let one: [u8; 1] = [0x31];
            let off: [u8; 3] = [0x6f, 0x66, 0x66];
            let no: [u8; 2] = [0x6e, 0x6f];
            let zero: [u8; 1] = [0x30];
            assert(on@ =~= seq![0x6fu8, 0x6eu8]);
            assert(yes@ =~= seq![0x79u8, 0x65u8, 0x73u8]);
            assert(one@ =~= seq![0x31u8]);
            assert(off@ =~= seq![0x6fu8, 0x66u8, 0x66u8]);
            assert(no@ =~= seq![0x6eu8, 0x6fu8]);
            assert(zero@ =~= seq![0x30u8]);
            if eq_ignore_ascii_case(v, &on) || eq_ignore_ascii_case(v, &yes) || eq_ignore_ascii_case(v, &one) {
                Some(true)
            } else if eq_ignore_ascii_case(v, &off) || eq_ignore_ascii_case(v, &no) || eq_ignore_ascii_case(v, &zero) {
                Some(false)
            } else {
                None
            }
        },
    }
}

} // verus!
