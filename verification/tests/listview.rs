use cacao::BridgeError;
use cacao::listview::{
    BatchOp, CellFactory, CellVendor, DequeuePlan, ListView, RowAnimation, distinct_count,
};
use cacao::widget::{Anchors, CallbackMethod};

fn anchors() -> Anchors {
    Anchors {
        top: 1,
        leading: 2,
        trailing: 3,
        bottom: 4,
        width: 5,
        height: 6,
        center_x: 7,
        center_y: 8,
    }
}

fn fresh_list() -> ListView {
    ListView::with(0x100, 0x200, anchors(), 0xA1, 0xA2)
}

const ITEM_TYPE: u64 = 7;

fn register_item(lv: &mut ListView) {
    lv.register(
        "item".to_string(),
        CellVendor {
            type_token: ITEM_TYPE,
            vendor: 1,
        },
    );
}

#[test]
fn factory_get_after_insert() {
    let mut f = CellFactory::new();
    f.insert(
        "item".to_string(),
        CellVendor {
            type_token: 1,
            vendor: 10,
        },
    );
    let v = f.get("item").unwrap();
    assert_eq!(v.type_token, 1);
    assert_eq!(v.vendor, 10);
}

#[test]
fn factory_get_unknown_identifier() {
    let f = CellFactory::new();
    assert!(matches!(
        f.get("missing"),
        Err(BridgeError::UnknownRowIdentifier)
    ));
}

#[test]
fn factory_later_registration_shadows() {
    let mut f = CellFactory::new();
    f.insert(
        "item".to_string(),
        CellVendor {
            type_token: 1,
            vendor: 10,
        },
    );
    f.insert(
        "item".to_string(),
        CellVendor {
            type_token: 1,
            vendor: 11,
        },
    );
    assert_eq!(f.get("item").unwrap().vendor, 11);
}

#[test]
fn unknown_identifier_fails_fast() {
    // Dequeue of an unregistered identifier fails with UnknownRowIdentifier
    // and performs no factory call and no host allocation.
    let mut lv = fresh_list();
    let r = lv.dequeue("missing", None, ITEM_TYPE);
    assert!(matches!(r, Err(BridgeError::UnknownRowIdentifier)));
    assert_eq!(lv.factory_calls(), 0);
    assert_eq!(lv.rows_allocated(), 0);
}

#[test]
fn dequeue_prefers_reuse_pool() {
    // A pooled row is used as it is: no factory call happens.
    let mut lv = fresh_list();
    register_item(&mut lv);
    let plan = lv.dequeue("item", Some(0x999), ITEM_TYPE).unwrap();
    assert_eq!(plan, DequeuePlan::Reuse { host: 0x999 });
    assert_eq!(lv.factory_calls(), 0);
    assert_eq!(lv.rows_allocated(), 0);
    // Only an empty pool runs the factory.
    let plan2 = lv.dequeue("item", None, ITEM_TYPE).unwrap();
    assert_eq!(plan2, DequeuePlan::Vend { vendor: 1 });
    assert_eq!(lv.factory_calls(), 1);
}

#[test]
fn dequeue_type_mismatch() {
    let mut lv = fresh_list();
    register_item(&mut lv);
    let r = lv.dequeue("item", None, ITEM_TYPE + 1);
    assert!(matches!(r, Err(BridgeError::RowTypeMismatch)));
    // The factory ran once before the mismatch was discovered; nothing was
    // allocated.
    assert_eq!(lv.factory_calls(), 1);
    assert_eq!(lv.rows_allocated(), 0);
}

#[test]
fn vended_row_carries_identifier() {
    let mut lv = fresh_list();
    register_item(&mut lv);
    let plan = lv.dequeue("item", None, ITEM_TYPE).unwrap();
    assert_eq!(plan, DequeuePlan::Vend { vendor: 1 });
    let row = lv.allocate_row("item", 0x777, 0xB1);
    assert!(!row.is_from_cache());
    assert_eq!(row.host(), 0x777);
    assert_eq!(row.reuse_identifier().as_deref(), Some("item"));
    assert_eq!(row.delegate_addr(), 0xB1);
    assert_eq!(lv.rows_allocated(), 1);
}

#[test]
fn vended_row_drops_callback_once() {
    let mut lv = fresh_list();
    register_item(&mut lv);
    let mut row = lv.allocate_row("item", 0x777, 0xB1);
    row.drop_handle();
    assert_eq!(row.delegate_addr(), 0);
    // A pooled row owns nothing; dropping it reclaims nothing.
    let mut cached = lv.adopt_reused(0x888);
    cached.drop_handle();
    assert_eq!(cached.delegate_addr(), 0);
}

#[test]
fn reused_row_keeps_previous_callback() {
    let lv = fresh_list();
    let row = lv.adopt_reused(0x888);
    assert!(row.is_from_cache());
    assert_eq!(row.host(), 0x888);
    assert_eq!(row.delegate_addr(), 0);
    assert!(row.reuse_identifier().is_none());
}

#[test]
fn list_insertion_counts() {
    // Insert indexes [0,1,2], then insert [1]: four host rows committed.
    let mut lv = fresh_list();
    lv.reload(0);
    lv.insert_rows(&vec![0, 1, 2], RowAnimation::Fade);
    assert_eq!(lv.committed_rows(), 3);
    lv.insert_rows(&vec![1], RowAnimation::Fade);
    assert_eq!(lv.committed_rows(), 4);
    lv.reload_rows(&vec![0, 1, 2, 3]);
    assert_eq!(lv.committed_rows(), 4);
}

#[test]
fn insert_rows_deduplicates_indexes() {
    let mut lv = fresh_list();
    lv.insert_rows(&vec![0, 0, 1], RowAnimation::NoEffect);
    assert_eq!(lv.committed_rows(), 2);
}

#[test]
fn distinct_count_examples() {
    assert_eq!(distinct_count(&vec![]), 0);
    assert_eq!(distinct_count(&vec![3, 3, 3]), 1);
    assert_eq!(distinct_count(&vec![0, 1, 2, 1, 0]), 3);
}

#[test]
fn remove_rows_updates_count() {
    let mut lv = fresh_list();
    lv.reload(5);
    lv.remove_rows(&vec![0, 4], RowAnimation::SlideUp);
    assert_eq!(lv.committed_rows(), 3);
}

#[test]
fn dequeue_reuse_over_large_scroll() {
    // Scroll 10,000 logical rows through a viewport of 20: the factory runs
    // at most 22 times; every other dequeue is served by the reuse pool.
    let mut lv = fresh_list();
    register_item(&mut lv);
    let mut pool: Vec<u64> = Vec::new();
    let mut visible: Vec<u64> = Vec::new();
    let mut next_host: u64 = 0x1000;
    for _ in 0..10_000 {
        let reuse = pool.pop();
        match lv.dequeue("item", reuse, ITEM_TYPE).unwrap() {
            DequeuePlan::Reuse { host } => {
                visible.push(host);
            }
            DequeuePlan::Vend { vendor } => {
                assert_eq!(vendor, 1);
                let row = lv.allocate_row("item", next_host, 0xC0);
                visible.push(row.host());
                next_host += 1;
            }
        }
        if visible.len() > 20 {
            pool.push(visible.remove(0));
        }
    }
    assert!(lv.factory_calls() <= 22, "factory ran {} times", lv.factory_calls());
    assert_eq!(lv.factory_calls(), lv.rows_allocated());
}

#[test]
fn batch_updates_apply_atomically() {
    // Inside a batch, insert [5] and remove [0]: the committed count changes
    // exactly once, after the batch closes, with net delta zero.
    let mut lv = fresh_list();
    lv.reload(10);
    lv.begin_updates();
    lv.insert_rows(&vec![5], RowAnimation::Fade);
    assert_eq!(lv.committed_rows(), 10);
    assert_eq!(lv.projected_rows(), 11);
    lv.remove_rows(&vec![0], RowAnimation::Fade);
    assert_eq!(lv.committed_rows(), 10);
    assert_eq!(lv.projected_rows(), 10);
    lv.end_updates();
    assert_eq!(lv.committed_rows(), 10);
    assert!(!lv.in_batch());
}

#[test]
fn perform_batch_updates_normal_return() {
    let mut lv = fresh_list();
    lv.reload(10);
    let ops = vec![
        BatchOp::Insert {
            indexes: vec![5],
            animation: RowAnimation::Fade,
        },
        BatchOp::Remove {
            indexes: vec![0],
            animation: RowAnimation::Fade,
        },
    ];
    let completed = lv.perform_batch_updates(&ops, None);
    assert!(completed);
    assert!(!lv.in_batch());
    assert_eq!(lv.committed_rows(), 10);
}

#[test]
fn perform_batch_updates_failure_path_still_ends() {
    // The user function issues one update and returns through its failure
    // channel: "end updates" still runs, and the one issued update commits.
    let mut lv = fresh_list();
    lv.reload(10);
    let ops = vec![
        BatchOp::Insert {
            indexes: vec![5],
            animation: RowAnimation::Fade,
        },
        BatchOp::Remove {
            indexes: vec![0],
            animation: RowAnimation::Fade,
        },
    ];
    let completed = lv.perform_batch_updates(&ops, Some(1));
    assert!(!completed);
    assert!(!lv.in_batch());
    assert_eq!(lv.committed_rows(), 11);
}

#[test]
fn listview_detach_on_drop() {
    let mut lv = fresh_list();
    lv.attach_to(0x55);
    let detached = lv.drop_handle();
    assert!(detached);
    assert_eq!(lv.superview(), 0);
    assert!(!lv.has_delegate());
}

#[test]
fn listview_backing_node_is_scroll_view() {
    let lv = fresh_list();
    assert_eq!(lv.get_backing_node(), 0x200);
    let clone = lv.clone_as_handle();
    assert_eq!(clone.table_host, 0x100);
    assert_eq!(clone.scroll_host, 0x200);
}

#[test]
fn listview_did_load_dispatched_on_construction() {
    let lv = fresh_list();
    assert_eq!(*lv.dispatched(), vec![CallbackMethod::DidLoad]);
}
