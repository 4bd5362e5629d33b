use tessera::pakoo::symbol_table::SymbolTable;
use tessera::pakoo::token::Lexer;

#[test]
fn symbol_ids_count_up_from_zero() {
    let mut t = SymbolTable::new();
    assert_eq!(t.get_or_create_id("x"), 0);
    assert_eq!(t.get_or_create_id("y"), 1);
    assert_eq!(t.get_or_create_id("length"), 2);
    // an interned name keeps its id
    assert_eq!(t.get_or_create_id("y"), 1);
    assert_eq!(t.get_or_create_id("x"), 0);
    assert_eq!(t.get_or_create_id("z"), 3);
}

#[test]
fn symbol_lookup_both_ways() {
    let mut t = SymbolTable::new();
    assert_eq!(t.get_id("x"), None);
    assert_eq!(t.get_name(0), None);
    let id = t.get_or_create_id("radius");
    assert_eq!(t.get_id("radius"), Some(id));
    assert_eq!(t.get_name(id), Some("radius"));
    assert_eq!(t.get_id("diameter"), None);
    assert_eq!(t.get_name(id + 1), None);
}

#[test]
fn lexer_skips_whitespace_runs() {
    let mut lx = Lexer::new("  \t\n 3 + x");
    lx.skip_whitespace();
    assert_eq!(lx.peek(), Some('3'));
    lx.advance();
    lx.skip_whitespace();
    assert_eq!(lx.peek(), Some('+'));
    lx.advance();
    lx.skip_whitespace();
    assert_eq!(lx.peek(), Some('x'));
    lx.advance();
    lx.skip_whitespace();
    assert_eq!(lx.peek(), None);
}

#[test]
fn lexer_on_empty_input() {
    let mut lx = Lexer::new("");
    lx.skip_whitespace();
    assert_eq!(lx.peek(), None);
}
