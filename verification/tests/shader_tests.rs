use fractals::shader::{enable_debug_layer, parse_shader_choice, ShaderType};

#[test]
fn menu_choices() {
    assert_eq!(parse_shader_choice("1"), Some(ShaderType::SierpinskiTriangle));
    assert_eq!(parse_shader_choice("2\n"), Some(ShaderType::SierpinskiCarpet));
    assert_eq!(parse_shader_choice("  3 \r\n"), Some(ShaderType::KochCurve));
    assert_eq!(parse_shader_choice("\u{a0}1\u{3000}"), Some(ShaderType::SierpinskiTriangle));
}

#[test]
fn menu_rejects_other_lines() {
    assert_eq!(parse_shader_choice(""), None);
    assert_eq!(parse_shader_choice("\n"), None);
    assert_eq!(parse_shader_choice("4"), None);
    assert_eq!(parse_shader_choice("12"), None);
    assert_eq!(parse_shader_choice("1 2"), None);
    assert_eq!(parse_shader_choice("one"), None);
    assert_eq!(parse_shader_choice("１"), None);
}

#[test]
fn menu_agrees_with_std_trim() {
    let lines = ["1", " 1", "2 ", "\t3\t", "x", "", "11", "\u{2028}2\u{85}", "3\u{200b}"];
    for line in lines {
        let expected = match line.trim() {
            "1" => Some(ShaderType::SierpinskiTriangle),
            "2" => Some(ShaderType::SierpinskiCarpet),
            "3" => Some(ShaderType::KochCurve),
            _ => None,
        };
        assert_eq!(parse_shader_choice(line), expected, "line {:?}", line);
    }
}

#[test]
fn whitespace_agrees_with_std() {
    for u in 0u32..0x3100 {
        if let Some(c) = char::from_u32(u) {
            assert_eq!(fractals::text::is_whitespace(c), c.is_whitespace(), "char {:x}", u);
        }
    }
}

#[test]
fn shader_names() {
    assert_eq!(ShaderType::SierpinskiTriangle.name(), "Sierpinski Triangle");
    assert_eq!(ShaderType::SierpinskiCarpet.name(), "Sierpinski Carpet");
    assert_eq!(ShaderType::KochCurve.name(), "Koch Curve");
    assert_eq!(ShaderType::MandelbrotSet.name(), "Mandelbrot Set");
    assert_eq!(ShaderType::JuliaSet.name(), "Julia Set");
}

#[test]
fn shader_module_vars() {
    assert_eq!(ShaderType::SierpinskiTriangle.module_var(), "SHADER_TRIANGLE_SPV");
    assert_eq!(ShaderType::SierpinskiCarpet.module_var(), "SHADER_CARPET_SPV");
    assert_eq!(ShaderType::KochCurve.module_var(), "SHADER_KOCH_SPV");
    assert_eq!(ShaderType::MandelbrotSet.module_var(), "SHADER_MANDELBROT_SPV");
    assert_eq!(ShaderType::JuliaSet.module_var(), "SHADER_JULIA_SPV");
}

#[test]
fn debug_layer_setting() {
    assert!(!enable_debug_layer(None));
    assert!(!enable_debug_layer(Some("0")));
    assert!(!enable_debug_layer(Some("false")));
    assert!(enable_debug_layer(Some("1")));
    assert!(enable_debug_layer(Some("true")));
    assert!(enable_debug_layer(Some("")));
    assert!(enable_debug_layer(Some("False")));
    assert!(enable_debug_layer(Some(" 0")));
}

#[test]
fn chars_of_keeps_characters() {
    assert_eq!(fractals::text::chars_of("a é\n"), vec!['a', ' ', 'é', '\n']);
    assert_eq!(fractals::text::chars_of(""), Vec::<char>::new());
}

#[test]
fn surrounding_whitespace_does_not_change_choice() {
    for core in ["1", "2", "3", "4", "", "12"] {
        for pre in ["", " ", "\t\u{a0}"] {
            for post in ["", "\n", " \r\n"] {
                let line = format!("{pre}{core}{post}");
                assert_eq!(parse_shader_choice(&line), parse_shader_choice(core));
            }
        }
    }
}
