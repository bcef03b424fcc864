use script_class::class::OwnerArg;
use script_class::object::{ForeignObject, Instantiable, Runtime, TRef};
use script_class::ownership::{Shared, ThreadLocal, Unique};
use script_class::sample::Widget;

#[test]
fn typed_reference_reports_target_identity() {
    let mut rt = Runtime::new();
    let w = Widget::construct(&mut rt);
    let r: TRef<'_, Widget, Shared> = TRef::new(&w, Shared);
    assert_eq!(r.id(), w.id());
}

#[test]
fn as_ref_strips_tag_and_keeps_identity() {
    let mut rt = Runtime::new();
    let w = Widget::construct(&mut rt);
    let r: TRef<'_, Widget, Unique> = TRef::new(&w, Unique);
    let bare: &Widget = r.as_ref();
    assert_eq!(bare.id(), w.id());
}

#[test]
fn bare_shape_conversion_keeps_identity_under_shared_tag() {
    let mut rt = Runtime::new();
    let w = Widget::construct(&mut rt);
    let r: TRef<'_, Widget, Shared> = TRef::new(&w, Shared);
    let bare: &Widget = OwnerArg::from_safe_ref(r);
    assert_eq!(bare.id(), w.id());
}

#[test]
fn bare_shape_conversion_keeps_identity_under_unique_tag() {
    let mut rt = Runtime::new();
    let w = Widget::construct(&mut rt);
    let r: TRef<'_, Widget, Unique> = TRef::new(&w, Unique);
    let bare: &Widget = OwnerArg::from_safe_ref(r);
    assert_eq!(bare.id(), w.id());
}

#[test]
fn bare_shape_conversion_keeps_identity_under_thread_local_tag() {
    let mut rt = Runtime::new();
    let w = Widget::construct(&mut rt);
    let r: TRef<'_, Widget, ThreadLocal> = TRef::new(&w, ThreadLocal);
    let bare: &Widget = OwnerArg::from_safe_ref(r);
    assert_eq!(bare.id(), w.id());
}

#[test]
fn typed_shape_conversion_is_identity_preserving() {
    let mut rt = Runtime::new();
    let w = Widget::construct(&mut rt);
    let r: TRef<'_, Widget, Shared> = TRef::new(&w, Shared);
    let same: TRef<'_, Widget, Shared> = OwnerArg::from_safe_ref(r);
    assert_eq!(same.id(), w.id());
}

#[test]
fn typed_shape_conversion_keeps_unique_tag() {
    let mut rt = Runtime::new();
    let w = Widget::construct(&mut rt);
    let r: TRef<'_, Widget, Unique> = TRef::new(&w, Unique);
    let same: TRef<'_, Widget, Unique> = OwnerArg::from_safe_ref(r);
    assert_eq!(same.id(), w.id());
}
