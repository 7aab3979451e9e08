use bundlrs::ssm::{exports_public_ssm, parse_ssm_blocks, parse_ssm_program, program_tree};

#[test]
fn member_with_a_set_compiles_to_two_rules() {
    let css = parse_ssm_program("MEMBER .x NAMED box\nSET color TO red FOR box".to_string());
    assert_eq!(css, Some(".x[named='box'] {}\n.x {color: red;}".to_string()));
}

#[test]
fn several_sets_on_one_member_share_its_rule() {
    let css = parse_ssm_program(
        "MEMBER .x NAMED box\nSET color TO red FOR box\nSET margin TO 0 FOR box".to_string(),
    );
    assert_eq!(css, Some(".x[named='box'] {}\n.x {color: red;margin: 0;}".to_string()));
}

#[test]
fn a_set_for_an_unknown_member_is_flagged() {
    let css = parse_ssm_program("SET color TO red FOR nobody".to_string());
    assert_eq!(
        css,
        Some("nobody { --ssm-warn: 'unknown member';color: red;}".to_string())
    );
}

#[test]
fn when_wraps_the_program_in_a_media_query() {
    let css = parse_ssm_program(
        "WHEN max-width: 600px\nMEMBER .x NAMED box\nSET color TO red FOR box".to_string(),
    );
    assert_eq!(
        css,
        Some("@media screen and (max-width: 600px) {.x[named='box'] {}\n.x {color: red;}}".to_string())
    );
}

#[test]
fn a_duplicate_member_is_an_error_in_the_output() {
    let css = parse_ssm_program("MEMBER .a NAMED x\nMEMBER .b NAMED x".to_string()).unwrap();
    assert!(css.starts_with(".a[named='x'] {}\n.a {}body::before {"));
    assert!(css.contains(
        "content: '[SSMError]: \\'x\\' | a member with this name is already registered in this environment';"
    ));
    let tree = program_tree("MEMBER .a NAMED x\nMEMBER .b NAMED x").unwrap();
    assert_eq!(tree.members.len(), 1);
    assert_eq!(tree.errors.len(), 1);
    assert_eq!(tree.errors[0].flagged, "x");
}

#[test]
fn animation_stages_and_the_anim_use() {
    let css = parse_ssm_program("USE ssm::anim spin\nUSE x\nSET opacity TO 0 AT from".to_string());
    assert_eq!(css, Some("@keyframes spin {from {opacity: 0;}}".to_string()));
}

#[test]
fn an_animation_is_named_after_its_use() {
    let css = parse_ssm_program("USE ssm::anim fade\nUSE ssm 1.0\nSET opacity TO 0 AT 50%".to_string());
    assert_eq!(css, Some("@keyframes fade {50 {opacity: 0;}}".to_string()));
}

#[test]
fn http_uses_are_imported_when_there_are_several_uses() {
    let css = parse_ssm_program("USE https://x.css\nUSE ssm 1.0".to_string());
    assert_eq!(css, Some("@import url(\"https://x.css\");".to_string()));
    let single = parse_ssm_program("USE https://x.css".to_string());
    assert_eq!(single, Some(String::new()));
}

#[test]
fn the_program_tree_holds_the_statements() {
    let tree = program_tree("USE ssm 1.0\nMEMBER .x NAMED box\nSET a TO b FOR box\nSET c TO d AT 50%").unwrap();
    assert_eq!(tree.uses.len(), 1);
    assert_eq!(tree.uses[0].reference, "ssm 1.0");
    assert_eq!(tree.members[0].by, ".x");
    assert_eq!(tree.members[0].name, "box");
    assert_eq!(tree.sets.len(), 2);
    assert_eq!(tree.sets[0].property, "a");
    assert_eq!(tree.sets[0].value, "b");
    assert_eq!(tree.sets[0].for_member, Some("box".to_string()));
    assert_eq!(tree.sets[1].at, Some("50".to_string()));
}

#[test]
fn blocks_in_markdown_are_compiled_and_joined() {
    let css = parse_ssm_blocks(
        "text ssm#MEMBER .x NAMED b\nSET a TO b FOR b# more ssm#SET c TO d FOR e#".to_string(),
    );
    assert_eq!(
        css,
        Some(".x[named='b'] {}\n.x {a: b;}e { --ssm-warn: 'unknown member';c: d;}".to_string())
    );
    assert_eq!(parse_ssm_blocks("no blocks".to_string()), Some(String::new()));
}

#[test]
fn public_ssm_is_exported_by_a_use_statement() {
    assert!(exports_public_ssm("USE ssm::public\nMEMBER .x NAMED y"));
    assert!(!exports_public_ssm("MEMBER .x NAMED y"));
}
