//! The fractal shaders the program can run, how the user picks one, and the
//! settings read from the environment.

use vstd::prelude::*;
use crate::text::{chars_of, is_whitespace, spec_is_whitespace};

verus! {

/// The fractal shaders.
#[derive(Clone, Copy, Debug, PartialEq, Eq, Structural)]
pub enum ShaderType {
    SierpinskiTriangle,
    SierpinskiCarpet,
    KochCurve,
    MandelbrotSet,
    JuliaSet,
}

/// The name shown to the user for each shader.
pub open spec fn shader_name(t: ShaderType) -> Seq<char> {
    match t {
        ShaderType::SierpinskiTriangle => "Sierpinski Triangle"@,
        ShaderType::SierpinskiCarpet => "Sierpinski Carpet"@,
        ShaderType::KochCurve => "Koch Curve"@,
        ShaderType::MandelbrotSet => "Mandelbrot Set"@,
        ShaderType::JuliaSet => "Julia Set"@,
    }
}

/// The environment variable that names the compiled SPIR-V module of each
/// shader.
pub open spec fn shader_module_var(t: ShaderType) -> Seq<char> {
    match t {
        ShaderType::SierpinskiTriangle => "SHADER_TRIANGLE_SPV"@,
        ShaderType::SierpinskiCarpet => "SHADER_CARPET_SPV"@,
        ShaderType::KochCurve => "SHADER_KOCH_SPV"@,
        ShaderType::MandelbrotSet => "SHADER_MANDELBROT_SPV"@,
        ShaderType::JuliaSet => "SHADER_JULIA_SPV"@,
    }
}

/// `s` with surrounding whitespace removed is the single character `c`:
/// `c` occurs once, and every other character is whitespace.
pub open spec fn trims_to_char(s: Seq<char>, c: char) -> bool {
    exists|i: int|
        0 <= i < s.len() && s[i] == c && forall|k: int|
            0 <= k < s.len() && k != i ==> spec_is_whitespace(#[trigger] s[k])
}

/// The menu's answer to a line of input: "1", "2" or "3", surrounded by any
/// whitespace, pick the Sierpinski triangle, the Sierpinski carpet or the
/// Koch curve; any other line picks nothing.
pub open spec fn menu_choice(s: Seq<char>) -> Option<ShaderType> {
    if trims_to_char(s, '1') {
        Some(ShaderType::SierpinskiTriangle)
    } else if trims_to_char(s, '2') {
        Some(ShaderType::SierpinskiCarpet)
    } else if trims_to_char(s, '3') {
        Some(ShaderType::KochCurve)
    } else {
        None
    }
}

/// Each shader has its own SPIR-V module variable and its own name.
pub proof fn lemma_shaders_are_told_apart(a: ShaderType, b: ShaderType)
    requires
        a != b,
    ensures
        shader_module_var(a) != shader_module_var(b),
        shader_name(a) != shader_name(b),
{
    reveal_strlit("SHADER_TRIANGLE_SPV");
    reveal_strlit("SHADER_CARPET_SPV");
    reveal_strlit("SHADER_KOCH_SPV");
    reveal_strlit("SHADER_MANDELBROT_SPV");
    reveal_strlit("SHADER_JULIA_SPV");
    reveal_strlit("Sierpinski Triangle");
    reveal_strlit("Sierpinski Carpet");
    reveal_strlit("Koch Curve");
    reveal_strlit("Mandelbrot Set");
    reveal_strlit("Julia Set");
    let (va, vb) = (shader_module_var(a), shader_module_var(b));
    let (na, nb) = (shader_name(a), shader_name(b));
    assert(va.len() != vb.len() || va[7] != vb[7] || va[8] != vb[8]);
    assert(na.len() != nb.len() || na[0] != nb[0] || na[11] != nb[11]);
}

/// The digit typed at the menu for each shader it offers.
pub open spec fn menu_digit(t: ShaderType) -> Option<char> {
    match t {
        ShaderType::SierpinskiTriangle => Some('1'),
        ShaderType::SierpinskiCarpet => Some('2'),
        ShaderType::KochCurve => Some('3'),
        _ => None,
    }
}

/// A line picks a shader exactly when, surrounding whitespace aside, it is
/// the one digit of that shader: "1" the Sierpinski triangle, "2" the
/// Sierpinski carpet, "3" the Koch curve. A line with any other visible
/// character, with two visible characters, or with none picks nothing.
pub proof fn lemma_menu_accepts_only_its_digits(s: Seq<char>)
    ensures
        forall|t: ShaderType|
            menu_choice(s) == Some(t) ==> (#[trigger] menu_digit(t)) is Some && exists|i: int|
                0 <= i < s.len() && s[i] == menu_digit(t)->0 && forall|k: int|
                    0 <= k < s.len() && k != i ==> spec_is_whitespace(#[trigger] s[k]),
        forall|i: int|
            0 <= i < s.len() && s[i] == '1' && (forall|k: int|
                0 <= k < s.len() && k != i ==> spec_is_whitespace(#[trigger] s[k]))
                ==> menu_choice(s) == Some(ShaderType::SierpinskiTriangle),
        forall|i: int|
            0 <= i < s.len() && s[i] == '2' && (forall|k: int|
                0 <= k < s.len() && k != i ==> spec_is_whitespace(#[trigger] s[k]))
                ==> menu_choice(s) == Some(ShaderType::SierpinskiCarpet),
        forall|i: int|
            0 <= i < s.len() && s[i] == '3' && (forall|k: int|
                0 <= k < s.len() && k != i ==> spec_is_whitespace(#[trigger] s[k]))
                ==> menu_choice(s) == Some(ShaderType::KochCurve),
        forall|i: int|
            #![trigger s[i]]
            0 <= i < s.len() && !spec_is_whitespace(s[i]) && s[i] != '1' && s[i] != '2' && s[i]
                != '3' ==> menu_choice(s) is None,
        (forall|k: int| 0 <= k < s.len() ==> spec_is_whitespace(#[trigger] s[k])) ==> menu_choice(s) is None,
{
    assert(!spec_is_whitespace('1') && !spec_is_whitespace('2') && !spec_is_whitespace('3'));
    assert forall|c: char| trims_to_char(s, c) implies (forall|i: int|
        0 <= i < s.len() && !spec_is_whitespace(#[trigger] s[i]) ==> s[i] == c) by {
        let j = choose|j: int|
            0 <= j < s.len() && s[j] == c && forall|k: int|
                0 <= k < s.len() && k != j ==> spec_is_whitespace(#[trigger] s[k]);
    }
    assert forall|c: char| trims_to_char(s, c) implies exists|i: int| 0 <= i < s.len() && s[i] == c by {
        let j = choose|j: int|
            0 <= j < s.len() && s[j] == c && forall|k: int|
                0 <= k < s.len() && k != j ==> spec_is_whitespace(#[trigger] s[k]);
        assert(s[j] == c);
    }
}

/// Whitespace around a line does not change the shader it picks.
pub proof fn lemma_menu_ignores_surrounding_whitespace(pre: Seq<char>, s: Seq<char>, post: Seq<char>)
    requires
        forall|k: int| 0 <= k < pre.len() ==> spec_is_whitespace(#[trigger] pre[k]),
        forall|k: int| 0 <= k < post.len() ==> spec_is_whitespace(#[trigger] post[k]),
    ensures
        menu_choice(pre + s + post) == menu_choice(s),
{
    let t = pre + s + post;
    let p = pre.len() as int;
    assert forall|c: char| !spec_is_whitespace(c) implies (trims_to_char(t, c) <==> trims_to_char(s, c)) by {
        assert forall|k: int| 0 <= k < t.len() && !(p <= k < p + s.len()) implies spec_is_whitespace(
            #[trigger] t[k],
        ) by {
            if k < p {
                assert(t[k] == pre[k]);
            } else {
                assert(t[k] == post[k - p - s.len()]);
            }
        }
        assert forall|k: int| 0 <= k < s.len() implies #[trigger] t[k + p] == s[k] by {}
        if trims_to_char(s, c) {
            let i = choose|i: int|
                0 <= i < s.len() && s[i] == c && forall|k: int|
                    0 <= k < s.len() && k != i ==> spec_is_whitespace(#[trigger] s[k]);
            assert forall|k: int| 0 <= k < t.len() && k != i + p implies spec_is_whitespace(#[trigger] t[k]) by {
                if p <= k < p + s.len() {
                    assert(t[(k - p) + p] == s[k - p]);
                }
            }
            assert(t[i + p] == c);
        }
        if trims_to_char(t, c) {
            let j = choose|j: int|
                0 <= j < t.len() && t[j] == c && forall|k: int|
                    0 <= k < t.len() && k != j ==> spec_is_whitespace(#[trigger] t[k]);
            assert(p <= j < p + s.len());
            assert(t[(j - p) + p] == s[j - p]);
            assert forall|k: int| 0 <= k < s.len() && k != j - p implies spec_is_whitespace(#[trigger] s[k]) by {
                assert(t[k + p] == s[k]);
            }
            assert(s[j - p] == c);
        }
    }
    assert(!spec_is_whitespace('1') && !spec_is_whitespace('2') && !spec_is_whitespace('3'));
}

impl ShaderType {
    /// The name shown to the user.
    pub fn name(&self) -> (s: &'static str)
        ensures
            s@ == shader_name(*self),
    {
        match self {
            ShaderType::SierpinskiTriangle => "Sierpinski Triangle",
            ShaderType::SierpinskiCarpet => "Sierpinski Carpet",
            ShaderType::KochCurve => "Koch Curve",
            ShaderType::MandelbrotSet => "Mandelbrot Set",
            ShaderType::JuliaSet => "Julia Set",
        }
    }

    /// The environment variable that names the shader's SPIR-V module.
    pub fn module_var(&self) -> (s: &'static str)
        ensures
            s@ == shader_module_var(*self),
    {
        match self {
            ShaderType::SierpinskiTriangle => "SHADER_TRIANGLE_SPV",
            ShaderType::SierpinskiCarpet => "SHADER_CARPET_SPV",
            ShaderType::KochCurve => "SHADER_KOCH_SPV",
            ShaderType::MandelbrotSet => "SHADER_MANDELBROT_SPV",
            ShaderType::JuliaSet => "SHADER_JULIA_SPV",
        }
    }
}

/// The only character of `v` that is not whitespace, when there is exactly
/// one.
fn sole_visible_char(v: &Vec<char>) -> (r: Option<char>)
    ensures
        forall|c: char| !spec_is_whitespace(c) ==> (r == Some(c) <==> trims_to_char(v@, c)),
        r matches Some(c) ==> !spec_is_whitespace(c),
{
    let mut found: Option<char> = None;
    let mut found_at: usize = 0;
    let mut i: usize = 0;
    while i < v.len()
        invariant
            i <= v.len(),
            found matches Some(c) ==> found_at < i && v@[found_at as int] == c && !spec_is_whitespace(c)
                && forall|k: int| 0 <= k < i && k != found_at ==> spec_is_whitespace(#[trigger] v@[k]),
            found is None ==> forall|k: int| 0 <= k < i ==> spec_is_whitespace(#[trigger] v@[k]),
        decreases v.len() - i,
    {
        let c = v[i];
        if !is_whitespace(c) {
            if found.is_some() {
                assert forall|d: char| !spec_is_whitespace(d) implies !trims_to_char(v@, d) by {
                    if trims_to_char(v@, d) {
                        let j = choose|j: int|
                            0 <= j < v@.len() && v@[j] == d && forall|k: int|
                                0 <= k < v@.len() && k != j ==> spec_is_whitespace(#[trigger] v@[k]);
                        if j == i as int {
                            assert(spec_is_whitespace(v@[found_at as int]));
                        } else {
                            assert(spec_is_whitespace(v@[i as int]));
                        }
                    }
                }
                return None;
            }
            found = Some(c);
            found_at = i;
        }
        i = i + 1;
    }
    match found {
        Some(c) => {
            assert forall|d: char| !spec_is_whitespace(d) implies (Some(c) == Some(d)
                <==> trims_to_char(v@, d)) by {
                if c == d {
                    assert(trims_to_char(v@, d));
                } else if trims_to_char(v@, d) {
                    let j = choose|j: int|
                        0 <= j < v@.len() && v@[j] == d && forall|k: int|
                            0 <= k < v@.len() && k != j ==> spec_is_whitespace(#[trigger] v@[k]);
                    assert(j != found_at);
                    assert(spec_is_whitespace(v@[found_at as int]));
                }
            }
            Some(c)
        },
        None => {
            assert forall|d: char| !spec_is_whitespace(d) implies !trims_to_char(v@, d) by {
                if trims_to_char(v@, d) {
                    let j = choose|j: int|
                        0 <= j < v@.len() && v@[j] == d && forall|k: int|
                            0 <= k < v@.len() && k != j ==> spec_is_whitespace(#[trigger] v@[k]);
                    assert(spec_is_whitespace(v@[j]));
                }
            }
            None
        },
    }
}

/// The shader a line typed at the menu picks, if any.
pub fn parse_shader_choice(input: &str) -> (r: Option<ShaderType>)
    ensures
        r == menu_choice(input@),
{
    let v = chars_of(input);
    let c = sole_visible_char(&v);
    assert(!spec_is_whitespace('1') && !spec_is_whitespace('2') && !spec_is_whitespace('3'));
    match c {
        Some('1') => Some(ShaderType::SierpinskiTriangle),
        Some('2') => Some(ShaderType::SierpinskiCarpet),
        Some('3') => Some(ShaderType::KochCurve),
        _ => None,
    }
}

/// Whether the graphics API's debug layer is wanted, given the value of the
/// `DEBUG_LAYER` environment variable (`None` when it is unset or not
/// Unicode): it is when the variable is set to anything but "0" or "false".
pub fn enable_debug_layer(value: Option<&str>) -> (b: bool)
    ensures
        b == match value {
            Some(s) => s@ != "0"@ && s@ != "false"@,
            None => false,
        },
{
    match value {
        Some(s) => {
            proof {
                reveal_strlit("0");
                reveal_strlit("false");
            }
            let v = chars_of(s);
            let is_zero = v.len() == 1 && v[0] == '0';
            let is_false = v.len() == 5 && v[0] == 'f' && v[1] == 'a' && v[2] == 'l' && v[3] == 's'
                && v[4] == 'e';
            assert(is_zero <==> v@ =~= "0"@);
            assert(is_false <==> v@ =~= "false"@);
            !(is_zero || is_false)
        },
        None => false,
    }
}

} // verus!
