//! Descriptors of Java classes and fields, and how each is resolved through
//! JNI.
//!
//! A descriptor says which class or field is meant; resolving it is a short
//! plan of JNI calls that the native edge carries out. Names and type
//! signatures travel to the JVM in Java's modified UTF-8, terminated by a
//! zero byte.
use vstd::prelude::*;
use crate::java_string::{jni_string, to_jni_string};

verus! {

/// The ways a class can be named.
///
/// An object reference is the address of the JNI reference, kept as a plain
/// integer.
#[derive(Clone, Debug, PartialEq, Eq)]
pub enum ClassDesc {
    /// A class by its binary name, such as `java/lang/String`.
    Name(String),
    /// The class of an object.
    Object(usize),
    /// A global reference that points at a class object.
    GlobalRef(usize),
    /// A local reference that points at a class object.
    AutoLocal(usize),
}

/// How a class is obtained from the JVM.
#[derive(Clone, Debug, PartialEq, Eq)]
pub enum ClassLookup {
    /// Call `FindClass` with this JNI string.
    FindClass(Vec<u8>),
    /// Call `GetObjectClass` on this object reference.
    GetObjectClass(usize),
    /// No call: the reference already is the class.
    Reference(usize),
}

/// The abstract form of a [`ClassLookup`].
pub enum ClassLookupView {
    FindClass(Seq<u8>),
    GetObjectClass(usize),
    Reference(usize),
}

impl View for ClassLookup {
    type V = ClassLookupView;

    open spec fn view(&self) -> ClassLookupView {
        match self {
            ClassLookup::FindClass(name) => ClassLookupView::FindClass(name@),
            ClassLookup::GetObjectClass(o) => ClassLookupView::GetObjectClass(*o),
            ClassLookup::Reference(o) => ClassLookupView::Reference(*o),
        }
    }
}

/// How the class that `desc` names is obtained: a name is looked up with
/// `FindClass`, an object's class with `GetObjectClass`, and a reference
/// to a class object is taken as it is.
pub open spec fn class_lookup_of(desc: ClassDesc) -> ClassLookupView {
    match desc {
        ClassDesc::Name(name) => ClassLookupView::FindClass(jni_string(name@)),
        ClassDesc::Object(o) => ClassLookupView::GetObjectClass(o),
        ClassDesc::GlobalRef(o) => ClassLookupView::Reference(o),
        ClassDesc::AutoLocal(o) => ClassLookupView::Reference(o),
    }
}

/// Resolves a class descriptor to the JNI call that yields the class.
pub fn lookup_class(desc: &ClassDesc) -> (r: ClassLookup)
    ensures
        r@ == class_lookup_of(*desc),
        *desc matches ClassDesc::Name(n) ==> r@ == ClassLookupView::FindClass(jni_string(n@)),
        *desc matches ClassDesc::Object(o) ==> r@ == ClassLookupView::GetObjectClass(o),
        *desc matches ClassDesc::GlobalRef(o) ==> r@ == ClassLookupView::Reference(o),
        *desc matches ClassDesc::AutoLocal(o) ==> r@ == ClassLookupView::Reference(o),
{
    match desc {
        ClassDesc::Name(name) => ClassLookup::FindClass(to_jni_string(name.as_str())),
        ClassDesc::Object(o) => ClassLookup::GetObjectClass(*o),
        ClassDesc::GlobalRef(o) => ClassLookup::Reference(*o),
        ClassDesc::AutoLocal(o) => ClassLookup::Reference(*o),
    }
}

/// A field: the class that declares it, its name and its type signature,
/// such as `I` or `Ljava/lang/String;`.
#[derive(Clone, Debug, PartialEq, Eq)]
pub struct FieldDesc {
    pub class: ClassDesc,
    pub name: String,
    pub sig: String,
}

/// How a field's identifier is obtained: the class lookup, then
/// `GetFieldID` (or `GetStaticFieldID` for a static field) with the name
/// and signature as JNI strings.
#[derive(Clone, Debug, PartialEq, Eq)]
pub struct FieldLookup {
    pub class: ClassLookup,
    pub name: Vec<u8>,
    pub sig: Vec<u8>,
    pub is_static: bool,
}

/// Whether `r` is the way to obtain the identifier of the field `desc`, an
/// instance field or a static one as `is_static` says.
pub open spec fn is_field_lookup_of(r: FieldLookup, desc: FieldDesc, is_static: bool) -> bool {
    &&& r.class@ == class_lookup_of(desc.class)
    &&& r.name@ == jni_string(desc.name@)
    &&& r.sig@ == jni_string(desc.sig@)
    &&& r.is_static == is_static
}

fn lookup_field_id(desc: &FieldDesc, is_static: bool) -> (r: FieldLookup)
    ensures
        is_field_lookup_of(r, *desc, is_static),
        r.name@ == jni_string(desc.name@),
        r.sig@ == jni_string(desc.sig@),
        r.is_static == is_static,
        r.class@ == class_lookup_of(desc.class),
        desc.class matches ClassDesc::Name(n) ==> r.class@ == ClassLookupView::FindClass(jni_string(n@)),
        desc.class matches ClassDesc::Object(o) ==> r.class@ == ClassLookupView::GetObjectClass(o),
        desc.class matches ClassDesc::GlobalRef(o) ==> r.class@ == ClassLookupView::Reference(o),
        desc.class matches ClassDesc::AutoLocal(o) ==> r.class@ == ClassLookupView::Reference(o),
{
    FieldLookup {
        class: lookup_class(&desc.class),
        name: to_jni_string(desc.name.as_str()),
        sig: to_jni_string(desc.sig.as_str()),
        is_static,
    }
}

/// Resolves the descriptor of an instance field to the JNI calls that yield
/// its identifier.
pub fn lookup_field(desc: &FieldDesc) -> (r: FieldLookup)
    ensures
        is_field_lookup_of(r, *desc, false),
        r.name@ == jni_string(desc.name@),
        r.sig@ == jni_string(desc.sig@),
        r.is_static == false,
        r.class@ == class_lookup_of(desc.class),
        desc.class matches ClassDesc::Name(n) ==> r.class@ == ClassLookupView::FindClass(jni_string(n@)),
        desc.class matches ClassDesc::Object(o) ==> r.class@ == ClassLookupView::GetObjectClass(o),
        desc.class matches ClassDesc::GlobalRef(o) ==> r.class@ == ClassLookupView::Reference(o),
        desc.class matches ClassDesc::AutoLocal(o) ==> r.class@ == ClassLookupView::Reference(o),
{
    lookup_field_id(desc, false)
}

/// Resolves the descriptor of a static field to the JNI calls that yield
/// its identifier.
pub fn lookup_static_field(desc: &FieldDesc) -> (r: FieldLookup)
    ensures
        is_field_lookup_of(r, *desc, true),
        r.name@ == jni_string(desc.name@),
        r.sig@ == jni_string(desc.sig@),
        r.is_static == true,
        r.class@ == class_lookup_of(desc.class),
        desc.class matches ClassDesc::Name(n) ==> r.class@ == ClassLookupView::FindClass(jni_string(n@)),
        desc.class matches ClassDesc::Object(o) ==> r.class@ == ClassLookupView::GetObjectClass(o),
        desc.class matches ClassDesc::GlobalRef(o) ==> r.class@ == ClassLookupView::Reference(o),
        desc.class matches ClassDesc::AutoLocal(o) ==> r.class@ == ClassLookupView::Reference(o),
{
    lookup_field_id(desc, true)
}

/// An instance field and a static field with the same descriptor are
/// looked up alike but for the JNI function: both obtain the class as
/// [`lookup_class`] does for the descriptor's class, both pass the field's
/// name as the name and its type signature as the signature, and only the
/// static lookup asks for `GetStaticFieldID`.
pub proof fn law_field_lookups_agree(desc: FieldDesc, c: ClassLookup, r: FieldLookup, s: FieldLookup)
    requires
        call_ensures(lookup_class, (&desc.class,), c),
        call_ensures(lookup_field, (&desc,), r),
        call_ensures(lookup_static_field, (&desc,), s),
    ensures
        r.class@ == c@,
        s.class@ == c@,
        r.name@ == jni_string(desc.name@),
        s.name@ == jni_string(desc.name@),
        r.sig@ == jni_string(desc.sig@),
        s.sig@ == jni_string(desc.sig@),
        !r.is_static,
        s.is_static,
{
}

/// A reference to a class object is the class itself: neither a class
/// lookup nor a field lookup asks the JVM for the class of such a
/// reference, while a plain object's class is asked for with
/// `GetObjectClass` and a name is looked up with `FindClass`.
pub proof fn law_class_kinds(desc: ClassDesc, c: ClassLookup, f: FieldDesc, r: FieldLookup)
    requires
        call_ensures(lookup_class, (&desc,), c),
        call_ensures(lookup_field, (&f,), r),
        f.class == desc,
    ensures
        desc matches ClassDesc::GlobalRef(o) ==> c@ == ClassLookupView::Reference(o) && r.class@ == ClassLookupView::Reference(o),
        desc matches ClassDesc::AutoLocal(o) ==> c@ == ClassLookupView::Reference(o) && r.class@ == ClassLookupView::Reference(o),
        desc matches ClassDesc::Object(o) ==> c@ == ClassLookupView::GetObjectClass(o) && r.class@ == ClassLookupView::GetObjectClass(o),
        desc matches ClassDesc::Name(n) ==> c@ == ClassLookupView::FindClass(jni_string(n@)) && r.class@ == ClassLookupView::FindClass(jni_string(n@)),
{
}

} // verus!
