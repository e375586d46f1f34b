use binrw::FieldSlot;
use binrw::VecArgs;

#[derive(PartialEq, Debug)]
pub struct NotClone;

pub struct Test<T: Clone> {
    pub blah: u32,
    pub not_copy: String,
    pub not_clone: NotClone,
    pub generic: T,
}

pub struct TestBuilder<T: Clone> {
    blah: FieldSlot<u32>,
    not_copy: FieldSlot<String>,
    not_clone: FieldSlot<NotClone>,
    generic: FieldSlot<T>,
}

impl<T: Clone> Test<T> {
    pub fn builder() -> TestBuilder<T> {
        TestBuilder {
            blah: FieldSlot::unset(),
            not_copy: FieldSlot::unset(),
            not_clone: FieldSlot::unset(),
            generic: FieldSlot::unset(),
        }
    }
}

impl<T: Clone> TestBuilder<T> {
    pub fn blah(self, v: u32) -> Self {
        TestBuilder { blah: self.blah.give(v), ..self }
    }

    pub fn not_copy(self, v: String) -> Self {
        TestBuilder { not_copy: self.not_copy.give(v), ..self }
    }

    pub fn not_clone(self, v: NotClone) -> Self {
        TestBuilder { not_clone: self.not_clone.give(v), ..self }
    }

    pub fn generic(self, v: T) -> Self {
        TestBuilder { generic: self.generic.give(v), ..self }
    }

    pub fn finalize(self) -> Test<T> {
        Test {
            blah: self.blah.take_required().unwrap(),
            not_copy: self.not_copy.take_required().unwrap(),
            not_clone: self.not_clone.take_required().unwrap(),
            generic: self.generic.take_required().unwrap(),
        }
    }
}

#[test]
fn test() {
    let x = Test::<String>::builder()
        .blah(3)
        .not_copy("a string here".into())
        .not_clone(NotClone)
        .generic("generic string :o".into())
        .finalize();

    assert_eq!(x.blah, 3);
    assert_eq!(x.not_copy, "a string here");
    assert_eq!(x.not_clone, NotClone);
    assert_eq!(x.generic, "generic string :o");
}

#[test]
fn vec_args_builder_required_and_default() {
    let args = VecArgs::<()>::builder().count(3).finalize().unwrap();
    assert_eq!(args.count, 3);
    assert_eq!(args.inner, ());
}

#[test]
fn vec_args_builder_missing_required_fails() {
    let r = VecArgs::<()>::builder().finalize();
    assert!(r.is_none());
}

#[test]
fn vec_args_builder_explicit_inner() {
    let args = VecArgs::<()>::builder().inner(()).count(2).finalize().unwrap();
    assert_eq!(args.count, 2);
    assert_eq!(args.inner, ());
}

#[test]
fn field_slot_policies() {
    let required: FieldSlot<u32> = FieldSlot::unset();
    assert!(required.take_required().is_none());
    let required = FieldSlot::unset().give(9u32);
    assert_eq!(required.take_required(), Some(9));
    let optional: FieldSlot<()> = FieldSlot::unset();
    assert_eq!(optional.take_or_default(), ());
}
