use robo::ui::{NonMutWrap, NonMutWrappable, QrWidget};
use robo::utils::UnsafeSync;

#[test]
fn qr_widget_is_made() {
    assert_eq!(QrWidget::new(), QrWidget);
}

#[test]
fn wrap_holds_child_and_accessor() {
    let wrap: NonMutWrap<(i32, String), String, _, QrWidget> =
        NonMutWrap::new(QrWidget::new(), |outer: &(i32, String)| outer.1.clone());
    assert_eq!(wrap.child(), &QrWidget);
    assert_eq!(wrap.inner_data(&(1, "inner".to_string())), "inner");
    assert_eq!(wrap.inner_data(&(2, "again".to_string())), "again");
}

#[test]
fn any_widget_can_be_wrapped() {
    let wrap: NonMutWrap<i32, i64, _, &str> =
        NonMutWrappable::<i32, i64, _>::nonmut_wrap("child", |outer: &i32| i64::from(*outer) * 2);
    assert_eq!(wrap.child(), &"child");
    assert_eq!(wrap.inner_data(&21), 42);
}

#[test]
fn wrapper_gives_its_value_out_by_reference() {
    let mut wrapped = UnsafeSync::new(vec![1, 2]);
    assert_eq!(*wrapped, vec![1, 2]);
    assert_eq!(wrapped.len(), 2);
    wrapped.push(3);
    assert_eq!(*wrapped, vec![1, 2, 3]);
    std::ops::DerefMut::deref_mut(&mut wrapped).clear();
    assert!(std::ops::Deref::deref(&wrapped).is_empty());
}
