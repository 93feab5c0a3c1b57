use resgen::font::{
    font_loaded, locate_font, name_spellings, spaces_replaced, FontCandidate, FontError,
    FontProbe, FontSearch, FontSource, RootPriority,
};

fn strings(xs: &[&str]) -> Vec<String> {
    xs.iter().map(|x| x.to_string()).collect()
}

fn search(priority: RootPriority) -> FontSearch {
    FontSearch {
        custom_roots: strings(&["/custom"]),
        system_roots: strings(&["/usr/share/fonts", "/system"]),
        priority,
    }
}

fn probe(c: &FontCandidate, found: bool) -> FontProbe {
    FontProbe { candidate: c.clone(), found }
}

#[test]
fn spellings_cover_naming_conventions() {
    assert_eq!(spaces_replaced("Liberation Sans", "-"), "Liberation-Sans");
    assert_eq!(spaces_replaced("Liberation Sans", ""), "LiberationSans");
    assert_eq!(
        name_spellings("Liberation Sans"),
        strings(&["LiberationSans", "Liberation-Sans", "Liberation Sans"])
    );
}

#[test]
fn roots_follow_priority() {
    assert_eq!(
        search(RootPriority::CustomFirst).search_roots(),
        strings(&["/custom", "/usr/share/fonts", "/system"])
    );
    assert_eq!(
        search(RootPriority::SystemFirst).search_roots(),
        strings(&["/usr/share/fonts", "/system", "/custom"])
    );
}

#[test]
fn candidates_go_root_by_root() {
    let cs = search(RootPriority::CustomFirst).candidates("A B");
    assert_eq!(cs.len(), 9);
    assert_eq!(cs[0], FontCandidate { dir: "/custom".to_string(), name: "AB".to_string() });
    assert_eq!(cs[1], FontCandidate { dir: "/custom".to_string(), name: "A-B".to_string() });
    assert_eq!(cs[2], FontCandidate { dir: "/custom".to_string(), name: "A B".to_string() });
    assert_eq!(cs[3].dir, "/usr/share/fonts");
    assert_eq!(cs[8], FontCandidate { dir: "/system".to_string(), name: "A B".to_string() });
}

#[test]
fn custom_root_wins_over_system_root() {
    let cs = search(RootPriority::CustomFirst).candidates("LiberationSans");
    // the font sits in the custom root and in the last system root
    let probes: Vec<FontProbe> =
        cs.iter().enumerate().map(|(i, c)| probe(c, i == 2 || i == 8)).collect();
    match locate_font(None, false, &probes) {
        Ok(FontSource::Discovered(c)) => assert_eq!(c.dir, "/custom"),
        other => panic!("unexpected {:?}", other),
    }
}

#[test]
fn system_first_lets_system_root_win() {
    let cs = search(RootPriority::SystemFirst).candidates("LiberationSans");
    let probes: Vec<FontProbe> =
        cs.iter().map(|c| probe(c, c.dir == "/custom" || c.dir == "/system")).collect();
    match locate_font(None, false, &probes) {
        Ok(FontSource::Discovered(c)) => assert_eq!(c.dir, "/system"),
        other => panic!("unexpected {:?}", other),
    }
}

#[test]
fn explicit_path_is_used_without_search() {
    let cs = search(RootPriority::CustomFirst).candidates("LiberationSans");
    let probes: Vec<FontProbe> = cs.iter().map(|c| probe(c, true)).collect();
    let r = locate_font(Some("/tmp/not-a-font.txt"), true, &probes);
    assert_eq!(r, Ok(FontSource::Explicit("/tmp/not-a-font.txt".to_string())));
    let source = r.unwrap();
    assert_eq!(
        font_loaded(source, false),
        Err(FontError::Load { path: "/tmp/not-a-font.txt".to_string() })
    );
}

#[test]
fn missing_explicit_path_falls_to_search() {
    let cs = search(RootPriority::CustomFirst).candidates("LiberationSans");
    let probes: Vec<FontProbe> = cs.iter().enumerate().map(|(i, c)| probe(c, i == 4)).collect();
    let r = locate_font(Some("/nowhere"), false, &probes);
    assert_eq!(r, Ok(FontSource::Discovered(cs[4].clone())));
}

#[test]
fn nothing_found_is_not_found() {
    let cs = search(RootPriority::CustomFirst).candidates("LiberationSans");
    let probes: Vec<FontProbe> = cs.iter().map(|c| probe(c, false)).collect();
    assert_eq!(locate_font(None, false, &probes), Err(FontError::NotFound));
    assert_eq!(locate_font(None, false, &Vec::new()), Err(FontError::NotFound));
}

#[test]
fn loaded_font_is_kept() {
    let c = FontCandidate { dir: "/custom".to_string(), name: "X".to_string() };
    let s = FontSource::Discovered(c.clone());
    assert_eq!(font_loaded(s.clone(), true), Ok(s.clone()));
    assert_eq!(font_loaded(s, false), Err(FontError::Load { path: "/custom".to_string() }));
}
