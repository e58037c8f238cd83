//! The emitted artifacts for three small records, transcribed, and the
//! end-to-end chains run against them.

#[derive(Debug, PartialEq)]
struct Foo {
    x: i32,
    y: String,
}

impl Foo {
    #[allow(dead_code)]
    fn builder() -> FooBuilder<(), ()> {
        FooBuilder { _TypedBuilder__phantomGenerics_: ::std::default::Default::default(), x: (), y: () }
    }
}

#[allow(dead_code, non_camel_case_types, non_snake_case)]
struct FooBuilder<_TypedBuilder_genericType__x_, _TypedBuilder_genericType__y_> {
    _TypedBuilder__phantomGenerics_: (),
    x: _TypedBuilder_genericType__x_,
    y: _TypedBuilder_genericType__y_,
}

#[allow(dead_code, non_camel_case_types, non_snake_case)]
pub trait _TypedBuilder__conversionHelperTraitFor_Foo<T> {
    fn _TypedBuilder__conversionHelperMethodFor_Foo(self, default: T) -> T;
}

#[allow(non_camel_case_types, non_snake_case)]
impl<T> _TypedBuilder__conversionHelperTraitFor_Foo<T> for () {
    fn _TypedBuilder__conversionHelperMethodFor_Foo(self, default: T) -> T {
        default
    }
}

#[allow(non_camel_case_types, non_snake_case)]
impl<T> _TypedBuilder__conversionHelperTraitFor_Foo<T> for (T,) {
    fn _TypedBuilder__conversionHelperMethodFor_Foo(self, _: T) -> T {
        self.0
    }
}

#[allow(dead_code, non_camel_case_types)]
impl<_TypedBuilder_genericType__y_> FooBuilder<(), _TypedBuilder_genericType__y_> {
    pub fn x<_TypedBuilder_genericType__x_: ::std::convert::Into<i32>>(
        self,
        value: _TypedBuilder_genericType__x_,
    ) -> FooBuilder<(i32,), _TypedBuilder_genericType__y_> {
        FooBuilder {
            _TypedBuilder__phantomGenerics_: self._TypedBuilder__phantomGenerics_,
            x: (value.into(),),
            y: self.y,
        }
    }
}

#[allow(dead_code, non_camel_case_types)]
impl<_TypedBuilder_genericType__x_> FooBuilder<_TypedBuilder_genericType__x_, ()> {
    pub fn y<_TypedBuilder_genericType__y_: ::std::convert::Into<String>>(
        self,
        value: _TypedBuilder_genericType__y_,
    ) -> FooBuilder<_TypedBuilder_genericType__x_, (String,)> {
        FooBuilder {
            _TypedBuilder__phantomGenerics_: self._TypedBuilder__phantomGenerics_,
            y: (value.into(),),
            x: self.x,
        }
    }
}

#[allow(dead_code, non_camel_case_types)]
impl FooBuilder<(i32,), (String,)> {
    pub fn build(self) -> Foo {
        Foo { x: self.x.0, y: self.y.0 }
    }
}

#[derive(Debug, PartialEq)]
struct Bar {
    x: i32,
    y: i32,
}

impl Bar {
    #[allow(dead_code)]
    fn builder() -> BarBuilder<(), ()> {
        BarBuilder { _TypedBuilder__phantomGenerics_: ::std::default::Default::default(), x: (), y: () }
    }
}

#[allow(dead_code, non_camel_case_types, non_snake_case)]
struct BarBuilder<_TypedBuilder_genericType__x_, _TypedBuilder_genericType__y_> {
    _TypedBuilder__phantomGenerics_: (),
    x: _TypedBuilder_genericType__x_,
    y: _TypedBuilder_genericType__y_,
}

#[allow(dead_code, non_camel_case_types, non_snake_case)]
pub trait _TypedBuilder__conversionHelperTraitFor_Bar<T> {
    fn _TypedBuilder__conversionHelperMethodFor_Bar(self, default: T) -> T;
}

#[allow(non_camel_case_types, non_snake_case)]
impl<T> _TypedBuilder__conversionHelperTraitFor_Bar<T> for () {
    fn _TypedBuilder__conversionHelperMethodFor_Bar(self, default: T) -> T {
        default
    }
}

#[allow(non_camel_case_types, non_snake_case)]
impl<T> _TypedBuilder__conversionHelperTraitFor_Bar<T> for (T,) {
    fn _TypedBuilder__conversionHelperMethodFor_Bar(self, _: T) -> T {
        self.0
    }
}

#[allow(dead_code, non_camel_case_types)]
impl<_TypedBuilder_genericType__y_> BarBuilder<(), _TypedBuilder_genericType__y_> {
    pub fn x<_TypedBuilder_genericType__x_: ::std::convert::Into<i32>>(
        self,
        value: _TypedBuilder_genericType__x_,
    ) -> BarBuilder<(i32,), _TypedBuilder_genericType__y_> {
        BarBuilder {
            _TypedBuilder__phantomGenerics_: self._TypedBuilder__phantomGenerics_,
            x: (value.into(),),
            y: self.y,
        }
    }
}

#[allow(dead_code, non_camel_case_types)]
impl<_TypedBuilder_genericType__x_> BarBuilder<_TypedBuilder_genericType__x_, ()> {
    pub fn y<_TypedBuilder_genericType__y_: ::std::convert::Into<i32>>(
        self,
        value: _TypedBuilder_genericType__y_,
    ) -> BarBuilder<_TypedBuilder_genericType__x_, (i32,)> {
        BarBuilder {
            _TypedBuilder__phantomGenerics_: self._TypedBuilder__phantomGenerics_,
            y: (value.into(),),
            x: self.x,
        }
    }
}

#[allow(dead_code, non_camel_case_types)]
impl<_TypedBuilder_genericType__y_: _TypedBuilder__conversionHelperTraitFor_Bar<i32>> BarBuilder<
    (i32,),
    _TypedBuilder_genericType__y_,
> {
    pub fn build(self) -> Bar {
        Bar {
            x: self.x.0,
            y: self.y._TypedBuilder__conversionHelperMethodFor_Bar(::std::default::Default::default()),
        }
    }
}

#[derive(Debug, PartialEq)]
struct Baz {
    x: i32,
}

impl Baz {
    #[allow(dead_code)]
    fn builder() -> BazBuilder<()> {
        BazBuilder { _TypedBuilder__phantomGenerics_: ::std::default::Default::default(), x: () }
    }
}

#[allow(dead_code, non_camel_case_types, non_snake_case)]
struct BazBuilder<_TypedBuilder_genericType__x_> {
    _TypedBuilder__phantomGenerics_: (),
    x: _TypedBuilder_genericType__x_,
}

#[allow(dead_code, non_camel_case_types, non_snake_case)]
pub trait _TypedBuilder__conversionHelperTraitFor_Baz<T> {
    fn _TypedBuilder__conversionHelperMethodFor_Baz(self, default: T) -> T;
}

#[allow(non_camel_case_types, non_snake_case)]
impl<T> _TypedBuilder__conversionHelperTraitFor_Baz<T> for () {
    fn _TypedBuilder__conversionHelperMethodFor_Baz(self, default: T) -> T {
        default
    }
}

#[allow(non_camel_case_types, non_snake_case)]
impl<T> _TypedBuilder__conversionHelperTraitFor_Baz<T> for (T,) {
    fn _TypedBuilder__conversionHelperMethodFor_Baz(self, _: T) -> T {
        self.0
    }
}

#[allow(dead_code, non_camel_case_types)]
impl BazBuilder<()> {
    pub fn x<_TypedBuilder_genericType__x_: ::std::convert::Into<i32>>(
        self,
        value: _TypedBuilder_genericType__x_,
    ) -> BazBuilder<(i32,)> {
        BazBuilder {
            _TypedBuilder__phantomGenerics_: self._TypedBuilder__phantomGenerics_,
            x: (value.into(),),
        }
    }
}

#[allow(dead_code, non_camel_case_types)]
impl<_TypedBuilder_genericType__x_: _TypedBuilder__conversionHelperTraitFor_Baz<i32>> BazBuilder<
    _TypedBuilder_genericType__x_,
> {
    pub fn build(self) -> Baz {
        Baz { x: self.x._TypedBuilder__conversionHelperMethodFor_Baz(21 + 21) }
    }
}

#[test]
fn chain_in_declaration_order() {
    let built = Foo::builder().x(1).y("a".to_string()).build();
    assert_eq!(built, Foo { x: 1, y: "a".to_string() });
}

#[test]
fn chain_in_reverse_order() {
    let built = Foo::builder().y("a".to_string()).x(1).build();
    assert_eq!(built, Foo { x: 1, y: "a".to_string() });
}

#[test]
fn conversion_applied_at_setter() {
    let built = Foo::builder().x(5u16).y("abc").build();
    assert_eq!(built, Foo { x: 5, y: "abc".to_string() });
}

#[test]
fn omitted_defaulted_field_takes_standard_default() {
    let built = Bar::builder().x(7).build();
    assert_eq!(built, Bar { x: 7, y: 0 });
}

#[test]
fn supplied_defaulted_field_keeps_value() {
    let built = Bar::builder().x(1).y(9).build();
    assert_eq!(built, Bar { x: 1, y: 9 });
}

#[test]
fn defaulted_chain_order_free() {
    let built = Bar::builder().y(9).x(1).build();
    assert_eq!(built, Bar { x: 1, y: 9 });
}

#[test]
fn expression_default_evaluated() {
    let built = Baz::builder().build();
    assert_eq!(built, Baz { x: 42 });
}

#[test]
fn expression_default_overridden_by_setter() {
    let built = Baz::builder().x(5).build();
    assert_eq!(built, Baz { x: 5 });
}
