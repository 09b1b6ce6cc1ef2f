use thr_core::vtable::{
    Binding, Exception, Reserved, VectorEntry, VtableError, binding_handler, binding_index,
    build_vector_table,
};

#[test]
fn exception_indices_follow_hardware_order() {
    let cases = [
        (Exception::Nmi, 2),
        (Exception::HardFault, 3),
        (Exception::MemManage, 4),
        (Exception::BusFault, 5),
        (Exception::UsageFault, 6),
        (Exception::SvCall, 11),
        (Exception::Debug, 12),
        (Exception::PendSv, 14),
        (Exception::SysTick, 15),
    ];
    for (e, index) in cases {
        assert_eq!(binding_index(&Binding::Exception(e, 1)), index);
    }
}

#[test]
fn irq_bindings_start_at_index_16() {
    assert_eq!(binding_index(&Binding::Irq(0, 1)), 16);
    assert_eq!(binding_index(&Binding::Irq(5, 1)), 21);
}

#[test]
fn binding_handler_is_carried() {
    assert_eq!(binding_handler(&Binding::Exception(Exception::Nmi, 7)), 7);
    assert_eq!(binding_handler(&Binding::Irq(3, 9)), 9);
}

#[test]
fn distinct_bindings_are_placed() {
    let bindings = vec![
        Binding::Exception(Exception::Nmi, 7),
        Binding::Exception(Exception::SysTick, 8),
        Binding::Irq(0, 9),
        Binding::Irq(5, 10),
    ];
    let table = build_vector_table(1, &bindings, 32).unwrap();
    assert_eq!(table.len(), 32);
    assert_eq!(table[0], VectorEntry::Reserved(Reserved::Vector));
    assert_eq!(table[1], VectorEntry::Handler(1));
    assert_eq!(table[2], VectorEntry::Handler(7));
    assert_eq!(table[15], VectorEntry::Handler(8));
    assert_eq!(table[16], VectorEntry::Handler(9));
    assert_eq!(table[21], VectorEntry::Handler(10));
    for (i, entry) in table.iter().enumerate() {
        if ![1, 2, 15, 16, 21].contains(&i) {
            assert_eq!(*entry, VectorEntry::Reserved(Reserved::Vector));
        }
    }
}

#[test]
fn empty_binding_list_gives_reset_and_reserved_only() {
    let table = build_vector_table(5, &Vec::new(), 16).unwrap();
    assert_eq!(table.len(), 16);
    assert_eq!(table[1], VectorEntry::Handler(5));
    for (i, entry) in table.iter().enumerate() {
        if i != 1 {
            assert_eq!(*entry, VectorEntry::Reserved(Reserved::Vector));
        }
    }
}

#[test]
fn colliding_bindings_fail() {
    let bindings = vec![
        Binding::Exception(Exception::SysTick, 7),
        Binding::Exception(Exception::SysTick, 8),
    ];
    let r = build_vector_table(1, &bindings, 32);
    assert_eq!(r.unwrap_err(), VtableError::Collision { index: 15 });
}

#[test]
fn colliding_irq_bindings_fail() {
    let bindings = vec![Binding::Irq(4, 7), Binding::Irq(4, 8)];
    let r = build_vector_table(1, &bindings, 32);
    assert_eq!(r.unwrap_err(), VtableError::Collision { index: 20 });
}

#[test]
fn out_of_range_irq_fails() {
    let bindings = vec![Binding::Irq(100, 7)];
    let r = build_vector_table(1, &bindings, 32);
    assert_eq!(r.unwrap_err(), VtableError::OutOfRange { index: 116 });
}

#[test]
fn first_fault_wins() {
    let bindings = vec![
        Binding::Irq(100, 7),
        Binding::Exception(Exception::Nmi, 8),
        Binding::Exception(Exception::Nmi, 9),
    ];
    let r = build_vector_table(1, &bindings, 32);
    assert_eq!(r.unwrap_err(), VtableError::OutOfRange { index: 116 });

    let bindings = vec![
        Binding::Exception(Exception::Nmi, 8),
        Binding::Exception(Exception::Nmi, 9),
        Binding::Irq(100, 7),
    ];
    let r = build_vector_table(1, &bindings, 32);
    assert_eq!(r.unwrap_err(), VtableError::Collision { index: 2 });
}
