use gitserver::body::{Attr, Block, Table, TextList};
use gitserver::value::ValueCell;

fn literal(value: &str) -> ValueCell<String> {
    ValueCell::literal(value.to_string())
}

#[test]
fn attributes_keep_the_order_in_which_they_were_written() {
    let block = Block::new().literal("name", "web").number("port", 80).flag("open", true);
    let names: Vec<&str> = block.entries.iter().map(|entry| entry.name.as_str()).collect();
    assert_eq!(names, vec!["name", "port", "open"]);
    assert!(matches!(block.find("port"), Some(Attr::Number(80))));
    assert!(matches!(block.find("open"), Some(Attr::Flag(true))));
    assert!(block.find("missing").is_none());
}

#[test]
fn find_gives_the_first_attribute_of_a_name() {
    let block = Block::new().number("port", 80).number("port", 443);
    assert!(matches!(block.find("port"), Some(Attr::Number(80))));
    assert!(Block::new().find("port").is_none());
}

#[test]
fn nested_blocks_of_one_name_join_where_they_follow_one_another() {
    let block = Block::new()
        .block("port", Block::new().number("container_port", 3000))
        .block("port", Block::new().number("container_port", 22))
        .block("volume", Block::new())
        .block("port", Block::new().number("container_port", 80));
    assert_eq!(block.entries.len(), 3);
    match &block.entries[0].value {
        Attr::Blocks(ports) => {
            assert_eq!(ports.len(), 2);
            assert!(matches!(ports[1].find("container_port"), Some(Attr::Number(22))));
        }
        _ => panic!("no blocks"),
    }
    match &block.entries[2].value {
        Attr::Blocks(ports) => assert_eq!(ports.len(), 1),
        _ => panic!("no blocks"),
    }
}

#[test]
fn a_block_does_not_join_an_attribute_of_another_kind() {
    let block = Block::new().literal("port", "http").block("port", Block::new());
    assert_eq!(block.entries.len(), 2);
    assert!(matches!(block.entries[0].value, Attr::Text(_)));
    assert!(matches!(block.entries[1].value, Attr::Blocks(_)));
}

#[test]
fn lists_and_tables_keep_their_order() {
    let list = TextList::new().literal("bash").cell(literal("-c")).literal("true");
    assert_eq!(list.items, vec![literal("bash"), literal("-c"), literal("true")]);
    let table = Table::new().literal("app", "gitea").cell("tier", literal("web"));
    assert_eq!(table.pairs.len(), 2);
    assert_eq!(table.pairs[0].key, "app");
    assert_eq!(table.pairs[0].value, literal("gitea"));
    assert_eq!(table.pairs[1].key, "tier");
    let block = Block::new().texts("command", list).table("labels", table);
    assert!(matches!(block.find("command"), Some(Attr::Texts(_))));
    assert!(matches!(block.find("labels"), Some(Attr::Table(_))));
}
