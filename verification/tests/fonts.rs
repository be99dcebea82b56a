use gpgpu::fonts::file::{
    to_table_names, BoundingBox, FaceProperties, LineMetrics, ScriptMetrics, Style, TablePresence,
    Weight, Width,
};
use gpgpu::fonts::glyph::{check_code_points, glyph_char, sort_code_points, unicode_blocks_of};
use gpgpu::fonts::list::{
    list_param_faces, rank_by_count, rank_tables, select_faces, table_names, FaceFilter,
};
use gpgpu::fonts::face::{face_table_names, parse_table_presence, presence_from_flags};
use gpgpu::fonts::file::{box_is_proper, format_flags};
use gpgpu::fonts::face::{face_chars, face_code_points, face_unicode_blocks};
use gpgpu::fonts::metrics::{face_metrics, face_properties, face_sheet_flags, weight_of_number, width_of_number};
use gpgpu::fonts::order::{face_in_block, face_name_order, faces_in_block, NameOrder};
use gpgpu::fonts::list::is_ascii_hexdigit_name;
use gpgpu::fonts::params::{face_param_value, list_face_params, FACE_PARAM_COUNT};
use gpgpu::fonts::outlines::Outlines;
use gpgpu::Error;

fn face(name: Option<&str>, tables: Vec<&'static str>) -> FaceProperties {
    FaceProperties {
        name: name.map(|s| s.to_string()),
        tables,
        glyph_count: 1234,
        global_bounding_box: BoundingBox { x_min: -10, y_min: -200, x_max: 1000, y_max: 900 },
        regular: true,
        italic: false,
        bold: true,
        oblique: false,
        monospaced: false,
        variable: true,
        units_per_em: 2048,
        x_height: Some(1062),
        capital_height: None,
        underline_metrics: Some(LineMetrics { position: -217, thickness: 150 }),
        strikeout_metrics: None,
        subscript_metrics: Some(ScriptMetrics { x_size: 1434, y_size: 1331, x_offset: 0, y_offset: 287 }),
        superscript_metrics: None,
        italic_angle: Some("-12.5".to_string()),
        weight: Weight::Other(450),
        width: Width::SemiCondensed,
        style: Style::Italic,
        ascender: 1854,
        descender: -434,
        height: 2355,
        line_gap: 67,
        vertical_ascender: None,
        vertical_descender: Some(-5),
        vertical_height: None,
        vertical_line_gap: None,
        typographic_ascender: Some(1536),
        typographic_descender: Some(-512),
        typographic_line_gap: Some(0),
        unicode_blocks: Ok(vec![
            "Basic Latin".to_string(),
            "Latin-1 Supplement".to_string(),
            "Latin Extended-A".to_string(),
            "Greek and Coptic".to_string(),
            "Cyrillic".to_string(),
        ]),
    }
}

#[test]
fn table_names_lists_mandatory_then_present() {
    let none = TablePresence::default();
    assert_eq!(to_table_names(&none), vec!["head", "hhea", "maxp"]);
    let mut p = TablePresence::default();
    p.cmap = true;
    p.glyf = true;
    p.gsub = true;
    p.vvar = true;
    assert_eq!(to_table_names(&p), vec!["head", "hhea", "maxp", "cmap", "glyf", "gsub", "vvar"]);
}

#[test]
fn print_property_texts() {
    let f = face(Some("Sans.ttf"), vec!["head", "cmap"]);
    let p = |n: &str| f.print_property(n).ok().unwrap();
    assert_eq!(p("name"), "Sans.ttf");
    assert_eq!(p("tables"), "-");
    assert_eq!(p("glyph_count"), "1234");
    assert_eq!(p("global_bounding_box"), "(-10,-200)->(1000,900)");
    assert_eq!(p("regular"), "✓");
    assert_eq!(p("italic"), "✗");
    assert_eq!(p("units_per_em"), "2048");
    assert_eq!(p("x_height"), "1062");
    assert_eq!(p("capital_height"), "-");
    assert_eq!(p("underline_metrics"), "pos:-217,thick:150");
    assert_eq!(p("strikeout_metrics"), "-");
    assert_eq!(p("subscript_metrics"), "xoff:0,yoff:287/x:1434,y:1331");
    assert_eq!(p("italic_angle"), "-12.5");
    assert_eq!(p("weight"), "450");
    assert_eq!(p("width"), "semi-condensed");
    assert_eq!(p("style"), "italic");
    assert_eq!(p("descender"), "-434");
    assert_eq!(p("vertical_descender"), "-5");
    assert_eq!(p("typographic_line_gap"), "0");
    assert_eq!(
        p("unicode_blocks"),
        "Basic Latin, Latin-1 Supplement, Latin Extended-A, Greek and Coptic\nCyrillic"
    );
}

#[test]
fn print_property_without_name_or_blocks() {
    let mut f = face(None, vec![]);
    assert_eq!(f.print_property("name").ok().unwrap(), "-");
    f.unicode_blocks = Err(Error::Invalid("p".to_string(), "missing cmap tables".to_string()));
    match f.print_property("unicode_blocks") {
        Err(Error::Invalid(p, m)) => {
            assert_eq!(p, "p");
            assert_eq!(m, "missing cmap tables");
        }
        _ => panic!("expected the blocks' own error"),
    }
}

#[test]
fn filter_selects_by_flags_and_table() {
    let a = face(Some("a"), vec!["head", "cmap"]);
    let mut b = face(Some("b"), vec!["head"]);
    b.bold = false;
    let faces = vec![a, b];
    let all = FaceFilter {
        regular: false,
        italic: false,
        bold: false,
        oblique: false,
        monospace: false,
        variable: false,
        table: None,
    };
    assert_eq!(select_faces(&faces, &all), vec![0, 1]);
    let bold = FaceFilter { bold: true, ..all };
    assert_eq!(select_faces(&faces, &bold), vec![0]);
    let cmap = FaceFilter { table: Some("cmap".to_string()), ..FaceFilter { bold: false, ..bold } };
    assert_eq!(select_faces(&faces, &cmap), vec![0]);
    let italic = FaceFilter { italic: true, table: None, ..cmap };
    assert_eq!(select_faces(&faces, &italic), Vec::<usize>::new());
}

#[test]
fn rank_by_count_is_stable_descending() {
    assert_eq!(rank_by_count(&vec![1, 3, 2, 3, 0, 1]), vec![1, 3, 2, 0, 5, 4]);
    assert_eq!(rank_by_count(&vec![]), Vec::<usize>::new());
}

#[test]
fn rank_tables_counts_faces() {
    let faces = vec![
        face(Some("a"), vec!["head", "cmap", "glyf"]),
        face(Some("b"), vec!["head", "glyf"]),
        face(Some("c"), vec!["head"]),
    ];
    let names = vec!["cmap", "glyf", "head", "kern"];
    assert_eq!(rank_tables(&names, &faces), vec![("head", 3), ("glyf", 2), ("cmap", 1), ("kern", 0)]);
    let all = table_names();
    assert_eq!(all.len(), 32);
    let mut sorted = all.clone();
    sorted.sort();
    assert_eq!(all, sorted);
}

#[test]
fn param_faces_tabulate_every_property() {
    let faces = vec![face(Some("a"), vec![]), face(None, vec![])];
    let rows = list_param_faces(&faces);
    assert_eq!(rows.len(), 33);
    assert_eq!(rows[0].param, "name");
    assert_eq!(rows[0].faces_value, vec!["a".to_string(), "-".to_string()]);
    assert_eq!(rows[32].param, "unicode_blocks");
    let mut g = face(None, vec![]);
    g.unicode_blocks = Err(Error::Invalid("p".to_string(), "m".to_string()));
    let rows = list_param_faces(&vec![g]);
    assert_eq!(rows[32].faces_value, vec!["???".to_string()]);
}

#[test]
fn code_points_sorted_or_repeat_reported() {
    assert_eq!(sort_code_points(&vec![5, 1, 4, 1]), vec![1, 1, 4, 5]);
    assert_eq!(check_code_points(&vec![66, 65, 97]).ok().unwrap(), vec![65, 66, 97]);
    assert_eq!(check_code_points(&vec![]).ok().unwrap(), Vec::<u32>::new());
    match check_code_points(&vec![9, 7, 9, 7, 3]) {
        Err(Error::Invalid(_, msg)) => assert_eq!(msg, "repeating code_point 7"),
        _ => panic!("expected an error"),
    }
}

#[test]
fn glyph_char_checks_scalar_values() {
    assert_eq!(glyph_char(65).ok(), Some('A'));
    assert_eq!(glyph_char(0x10FFFF).ok(), Some('\u{10FFFF}'));
    match glyph_char(0xD800) {
        Err(Error::Invalid(_, msg)) => assert_eq!(msg, "no char for code_point 55296"),
        _ => panic!("expected an error"),
    }
    assert!(glyph_char(0x110000).is_err());
}

#[test]
fn unicode_blocks_once_each_in_order() {
    let blocks = unicode_blocks_of(&vec!['я', 'A', 'b', 'é', 'Ж']);
    let names: Vec<&str> = blocks.iter().map(|b| b.name.as_str()).collect();
    assert_eq!(names, vec!["Basic Latin", "Latin-1 Supplement", "Cyrillic"]);
    assert_eq!((blocks[0].start, blocks[0].end), (0, 0x7F));
}

#[test]
fn outlines_keep_lines_in_order() {
    let mut o = Outlines::new();
    o.push("Move 1 2".to_string());
    o.push("Close".to_string());
    assert_eq!(o.into_iter(), vec!["Move 1 2".to_string(), "Close".to_string()]);
}

#[test]
fn hexdigit_stems_are_cache_names() {
    assert!(is_ascii_hexdigit_name(Some("0123456789abcdefABCDEF")));
    assert!(is_ascii_hexdigit_name(Some("")));
    assert!(!is_ascii_hexdigit_name(Some("DejaVuSans")));
    assert!(!is_ascii_hexdigit_name(Some("ab12g")));
    assert!(!is_ascii_hexdigit_name(Some("ａ1")));
    assert!(!is_ascii_hexdigit_name(None));
}

#[test]
fn face_flags_marks() {
    let f = face(Some("a.ttf"), vec!["head"]);
    assert_eq!(format_flags(&f), "✓✗✓✗✗✓");
}

#[test]
fn face_parameter_sheet() {
    let names = list_face_params();
    assert_eq!(names.len(), FACE_PARAM_COUNT);
    assert_eq!(names[0], "number_of_glyphs");
    assert_eq!(names[23], "variation_coordinates");
    let f = face(Some("a.ttf"), vec!["head"]);
    let v = |n: &str| face_param_value(&f, true, false, n);
    assert_eq!(v("number_of_glyphs"), "1234");
    assert_eq!(v("regular"), "✓");
    assert_eq!(v("italic"), "✗");
    assert_eq!(v("units_per_em"), "2048");
    assert_eq!(v("weight"), "Other(450)");
    assert_eq!(v("width"), "SemiCondensed");
    assert_eq!(v("italic_angle"), "-12.5");
    assert_eq!(v("ascender/vertical"), "1854/✗");
    assert_eq!(v("descender/vertical"), "-434/-5");
    assert_eq!(v("x_height"), "1062");
    assert_eq!(v("capital_height"), "✗");
    assert_eq!(v("underline_metrics"), "pos:-217,thick:150");
    assert_eq!(v("strikeout_metrics"), "✗");
    assert_eq!(v("subscript_metrics"), "xoff:0,yoff:287/x:1434,y:1331");
    assert_eq!(v("glyph_classes"), "✓");
    assert_eq!(v("bounding_box"), "xmin:-10,ymin:-200/xmax:1000,ymax:900");
    assert_eq!(v("variation_coordinates"), "✗");
    for n in names {
        assert!(!face_param_value(&f, false, true, n).is_empty());
    }
}

fn minimal_font(with_vorg: bool) -> Vec<u8> {
    let mut head = vec![0u8; 54];
    head[18] = 0x03;
    head[19] = 0xE8;
    let hhea = vec![0u8; 36];
    let maxp = vec![0x00, 0x00, 0x50, 0x00, 0x00, 0x01];
    let vorg = vec![0x00, 0x01, 0x00, 0x00, 0x00, 0x00, 0x00, 0x00];
    let mut tables: Vec<(&[u8; 4], Vec<u8>)> = vec![(b"head", head), (b"hhea", hhea), (b"maxp", maxp)];
    if with_vorg {
        tables.push((b"VORG", vorg));
    }
    let mut out = vec![0, 1, 0, 0];
    out.extend_from_slice(&(tables.len() as u16).to_be_bytes());
    out.extend_from_slice(&[0; 6]);
    let mut offset = 12 + 16 * tables.len();
    for (tag, data) in tables.iter() {
        out.extend_from_slice(*tag);
        out.extend_from_slice(&[0; 4]);
        out.extend_from_slice(&(offset as u32).to_be_bytes());
        out.extend_from_slice(&(data.len() as u32).to_be_bytes());
        offset += data.len();
    }
    for (_, data) in tables.iter() {
        out.extend_from_slice(data);
    }
    out
}

#[test]
fn tables_of_parsed_faces() {
    match face_table_names(&minimal_font(false)) {
        Ok(ts) => assert_eq!(ts, vec!["head", "hhea", "maxp"]),
        Err(e) => panic!("{}", e.to_text()),
    }
    match face_table_names(&minimal_font(true)) {
        Ok(ts) => assert_eq!(ts, vec!["head", "hhea", "maxp", "vorg"]),
        Err(e) => panic!("{}", e.to_text()),
    }
    match parse_table_presence(&minimal_font(true)) {
        Ok(p) => {
            assert!(p.vorg);
            assert!(!p.cmap && !p.glyf && !p.vvar);
        }
        Err(e) => panic!("{}", e.to_text()),
    }
}

#[test]
fn unparsable_bytes_are_invalid() {
    for data in [vec![], vec![1u8, 2, 3, 4, 5, 6]] {
        match parse_table_presence(&data) {
            Err(Error::Invalid(_, msg)) => assert_eq!(msg, "unknown magic"),
            _ => panic!("bytes parsed as a font"),
        }
    }
    let mut font = minimal_font(false);
    font[12 + 16 * 2 + 12..12 + 16 * 2 + 16].copy_from_slice(&[0, 0, 0, 2]);
    match face_table_names(&font) {
        Err(Error::Invalid(_, msg)) => assert_eq!(msg, "the maxp table is missing or malformed"),
        _ => panic!("a short maxp table parsed"),
    }
}

#[test]
fn presence_reads_flags_in_table_order() {
    let mut flags = vec![false; 29];
    flags[0] = true;
    flags[14] = true;
    flags[28] = true;
    let p = presence_from_flags(&flags);
    assert!(p.cbdt && p.gdef && p.vvar);
    assert!(!p.cff && !p.gpos && !p.mvar);
}

fn font_with_cmap(code_points: &[u16]) -> Vec<u8> {
    // head, hhea, maxp and a format 6 (trimmed table) cmap subtable.
    let mut head = vec![0u8; 54];
    head[18] = 0x03;
    head[19] = 0xE8;
    let hhea = vec![0u8; 36];
    let maxp = vec![0x00, 0x00, 0x50, 0x00, 0x00, 0x01];
    let first = code_points[0];
    let count = code_points.len() as u16;
    let mut sub = Vec::new();
    sub.extend_from_slice(&6u16.to_be_bytes());
    sub.extend_from_slice(&(10 + 2 * count).to_be_bytes());
    sub.extend_from_slice(&0u16.to_be_bytes());
    sub.extend_from_slice(&first.to_be_bytes());
    sub.extend_from_slice(&count.to_be_bytes());
    for _ in 0..count {
        sub.extend_from_slice(&0u16.to_be_bytes());
    }
    let mut cmap = Vec::new();
    cmap.extend_from_slice(&0u16.to_be_bytes());
    cmap.extend_from_slice(&1u16.to_be_bytes());
    cmap.extend_from_slice(&0u16.to_be_bytes());
    cmap.extend_from_slice(&3u16.to_be_bytes());
    cmap.extend_from_slice(&12u32.to_be_bytes());
    cmap.extend_from_slice(&sub);
    let tables: Vec<(&[u8; 4], Vec<u8>)> =
        vec![(b"cmap", cmap), (b"head", head), (b"hhea", hhea), (b"maxp", maxp)];
    let mut out = vec![0, 1, 0, 0];
    out.extend_from_slice(&(tables.len() as u16).to_be_bytes());
    out.extend_from_slice(&[0; 6]);
    let mut offset = 12 + 16 * tables.len();
    for (tag, data) in tables.iter() {
        out.extend_from_slice(*tag);
        out.extend_from_slice(&[0; 4]);
        out.extend_from_slice(&(offset as u32).to_be_bytes());
        out.extend_from_slice(&(data.len() as u32).to_be_bytes());
        offset += data.len();
    }
    for (_, data) in tables.iter() {
        out.extend_from_slice(data);
    }
    out
}

#[test]
fn code_points_and_chars_of_a_face() {
    let font = font_with_cmap(&[0x41, 0x42, 0x43]);
    let mut expected = Vec::new();
    ttf_parser::Face::from_slice(&font, 0).unwrap().tables().cmap.unwrap().subtables.into_iter()
        .for_each(|s| s.codepoints(|c| expected.push(c)));
    match face_code_points(&font) {
        Ok(v) => assert_eq!(v, expected),
        Err(e) => panic!("{}", e.to_text()),
    }
    match face_chars(&font) {
        Ok(cs) => {
            let mut want: Vec<char> = expected.iter().map(|c| char::from_u32(*c).unwrap()).collect();
            want.sort();
            want.dedup();
            assert_eq!(cs, want);
        }
        Err(e) => panic!("{}", e.to_text()),
    }
    match face_unicode_blocks(&font) {
        Ok(bs) => assert!(bs.iter().all(|b| b.name == "Basic Latin")),
        Err(e) => panic!("{}", e.to_text()),
    }
}

#[test]
fn faces_without_cmap_or_font_report_errors() {
    match face_code_points(&minimal_font(false)) {
        Err(Error::Invalid(_, m)) => assert_eq!(m, "missing cmap tables"),
        _ => panic!("a face without cmap"),
    }
    match face_chars(&[9u8, 9, 9, 9]) {
        Err(Error::Invalid(_, m)) => assert_eq!(m, "unknown magic"),
        _ => panic!("bytes parsed as a font"),
    }
    match face_properties(&[], None) {
        Err(Error::Invalid(_, m)) => assert_eq!(m, "unknown magic"),
        _ => panic!("empty bytes parsed as a font"),
    }
}

#[test]
fn metrics_and_properties_of_a_face() {
    let font = minimal_font(true);
    let face = ttf_parser::Face::from_slice(&font, 0).unwrap();
    let m = match face_metrics(&font) {
        Ok(m) => m,
        Err(e) => panic!("{}", e.to_text()),
    };
    assert_eq!(m.units_per_em, 1000);
    assert_eq!(m.glyph_count, face.number_of_glyphs());
    assert_eq!(m.weight_number, face.weight().to_number());
    assert_eq!(m.regular, face.is_regular());
    assert_eq!(m.ascender, face.ascender());
    assert_eq!(m.vertical_ascender, face.vertical_ascender());
    let p = match face_properties(&font, Some("x.ttf".to_string())) {
        Ok(p) => p,
        Err(e) => panic!("{}", e.to_text()),
    };
    assert_eq!(p.name.as_deref(), Some("x.ttf"));
    assert_eq!(p.tables, vec!["head", "hhea", "maxp", "vorg"]);
    assert_eq!(p.units_per_em, 1000);
    assert_eq!(p.weight, Weight::Normal);
    assert_eq!(p.italic_angle, face.italic_angle().map(|a| a.to_string()));
    match &p.unicode_blocks {
        Err(Error::Invalid(_, m)) => assert_eq!(m, "missing cmap tables"),
        _ => panic!("a face without cmap has blocks"),
    }
    match face_sheet_flags(&font) {
        Ok((c, v)) => {
            assert!(!c);
            assert_eq!(v, face.has_non_default_variation_coordinates());
        }
        Err(e) => panic!("{}", e.to_text()),
    }
}

#[test]
fn weight_and_width_numbers() {
    assert_eq!(weight_of_number(100), Weight::Thin);
    assert_eq!(weight_of_number(700), Weight::Bold);
    assert_eq!(weight_of_number(450), Weight::Other(450));
    assert_eq!(weight_of_number(0), Weight::Other(0));
    assert_eq!(width_of_number(1), Width::UltraCondensed);
    assert_eq!(width_of_number(5), Width::Normal);
    assert_eq!(width_of_number(9), Width::UltraExpanded);
    assert_eq!(width_of_number(12), Width::Normal);
}

#[test]
fn proper_boxes() {
    assert!(box_is_proper(&BoundingBox { x_min: 0, y_min: 0, x_max: 1, y_max: 1 }));
    assert!(!box_is_proper(&BoundingBox { x_min: 1, y_min: 0, x_max: 1, y_max: 1 }));
    assert!(!box_is_proper(&BoundingBox { x_min: 0, y_min: 2, x_max: 1, y_max: -1 }));
}

#[test]
fn faces_ordered_by_name() {
    let a = face(Some("Arial.ttf"), vec![]);
    let b = face(Some("DejaVu.ttf"), vec![]);
    let ab = face(Some("Arial"), vec![]);
    let none = face(None, vec![]);
    assert_eq!(face_name_order(&a, &b), NameOrder::Less);
    assert_eq!(face_name_order(&b, &a), NameOrder::Greater);
    assert_eq!(face_name_order(&a, &a), NameOrder::Equal);
    assert_eq!(face_name_order(&ab, &a), NameOrder::Less);
    assert_eq!(face_name_order(&none, &a), NameOrder::Less);
    assert_eq!(face_name_order(&none, &none), NameOrder::Less);
    assert_eq!(face_name_order(&a, &none), NameOrder::Greater);
    assert_eq!(face_name_order(&face(Some("é"), vec![]), &face(Some("z"), vec![])), NameOrder::Greater);
}

#[test]
fn faces_by_unicode_block() {
    let f = face(Some("a"), vec![]);
    assert!(matches!(face_in_block(&f, "greek"), Ok(true)));
    assert!(matches!(face_in_block(&f, "latin-1"), Ok(true)));
    assert!(matches!(face_in_block(&f, "Greek"), Ok(false)));
    assert!(matches!(face_in_block(&f, "arabic"), Ok(false)));
    let mut g = face(Some("g"), vec![]);
    g.unicode_blocks = Ok(vec!["Arabic".to_string()]);
    let faces = vec![f, g];
    assert_eq!(faces_in_block(&faces, "arabic").ok(), Some(vec![1]));
    assert_eq!(faces_in_block(&faces, "").ok(), Some(vec![0, 1]));
    let mut h = face(Some("h"), vec![]);
    h.unicode_blocks = Err(Error::Invalid("p".to_string(), "bad".to_string()));
    match faces_in_block(&vec![h], "x") {
        Err(Error::Invalid(_, m)) => assert_eq!(m, "bad"),
        _ => panic!("an error is passed on"),
    }
}
