use bloodmessage_mod::bloodmessage::delete_message;
use bloodmessage_mod::list::{unlink_matching, HostCall, MessageList};
use bloodmessage_mod::registry::{add_message, get_message, MessageRegistry};

/// A 3-node list [0x100, 0x200, 0x300] with the given registry templates.
fn three_nodes(t1: u16, t2: u16, t3: u16) -> MessageList {
    let mut list = MessageList::new();
    list.push_front(0x300, t3);
    list.push_front(0x200, t2);
    list.push_front(0x100, t1);
    list
}

#[test]
fn unlink_middle_node_links_neighbours_directly() {
    let mut reg = MessageRegistry::new();
    let t1 = add_message(&mut reg, "first");
    let t2 = add_message(&mut reg, "second");
    let t3 = add_message(&mut reg, "third");
    let mut list = three_nodes(t1, t2, t3);

    let (count, calls) = unlink_matching(&mut list, &reg, "second");
    assert_eq!(count, 1);
    assert_eq!(list.len(), 2);
    // the first and third nodes are linked directly
    assert_eq!(list.head_addr(), 0x100);
    assert_eq!(list.node_at(0).addr, 0x100);
    assert_eq!(list.node_at(0).next, 0x300);
    assert_eq!(list.node_at(1).addr, 0x300);
    assert_eq!(list.node_at(1).next, 0);
    // teardown comes before deallocation on the removed node
    assert_eq!(calls, vec![HostCall::Teardown(0x200), HostCall::Dealloc(0x200)]);
}

#[test]
fn unlink_head_node_moves_the_head_pointer() {
    let mut reg = MessageRegistry::new();
    let t1 = add_message(&mut reg, "first");
    let t2 = add_message(&mut reg, "second");
    let t3 = add_message(&mut reg, "third");
    let mut list = three_nodes(t1, t2, t3);

    let (count, calls) = unlink_matching(&mut list, &reg, "first");
    assert_eq!(count, 1);
    // the container's head now names the second node
    assert_eq!(list.head_addr(), 0x200);
    assert_eq!(list.len(), 2);
    assert_eq!(calls, vec![HostCall::Teardown(0x100), HostCall::Dealloc(0x100)]);
}

#[test]
fn unlink_on_empty_list_is_a_no_op() {
    let reg = MessageRegistry::new();
    let mut list = MessageList::new();
    let (count, calls) = unlink_matching(&mut list, &reg, "anything");
    assert_eq!(count, 0);
    assert!(calls.is_empty());
    assert_eq!(list.head_addr(), 0);
    assert_eq!(list.len(), 0);
}

#[test]
fn unlink_matches_whitespace_insensitively_and_in_order() {
    let mut reg = MessageRegistry::new();
    let t1 = add_message(&mut reg, "Try finger");
    let t2 = add_message(&mut reg, "but hole");
    let t3 = add_message(&mut reg, "Tryfinger");
    let mut list = three_nodes(t1, t2, t3);

    let (count, calls) = unlink_matching(&mut list, &reg, "Try finger");
    assert_eq!(count, 2);
    assert_eq!(list.len(), 1);
    assert_eq!(list.head_addr(), 0x200);
    assert_eq!(
        calls,
        vec![
            HostCall::Teardown(0x100),
            HostCall::Dealloc(0x100),
            HostCall::Teardown(0x300),
            HostCall::Dealloc(0x300),
        ]
    );
}

#[test]
fn unlink_skips_templates_without_registry_entry() {
    let mut reg = MessageRegistry::new();
    let t1 = add_message(&mut reg, "present");
    let mut list = MessageList::new();
    list.push_front(0x200, 999); // no registry entry for template 999
    list.push_front(0x100, t1);
    let (count, _calls) = unlink_matching(&mut list, &reg, "present");
    assert_eq!(count, 1);
    assert_eq!(list.len(), 1);
    assert_eq!(list.node_at(0).addr, 0x200);
}

#[test]
fn delete_message_also_drops_registry_entries() {
    let mut reg = MessageRegistry::new();
    let t1 = add_message(&mut reg, "stay");
    let t2 = add_message(&mut reg, "go away");
    let mut list = MessageList::new();
    list.push_front(0x200, t2);
    list.push_front(0x100, t1);

    let (count, calls) = delete_message(&mut list, &mut reg, "goaway");
    assert_eq!(count, 1);
    assert_eq!(calls, vec![HostCall::Teardown(0x200), HostCall::Dealloc(0x200)]);
    assert_eq!(get_message(&reg, t2), None);
    assert_eq!(get_message(&reg, t1), Some(String::from("stay")));
    assert_eq!(list.len(), 1);
    assert_eq!(list.head_addr(), 0x100);
}
