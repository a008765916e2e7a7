use vstd::prelude::*;

use crate::user::LocaleKind;

verus! {

/// The words of the menu, in one language.
#[derive(Default)]
pub struct Locale {
    pub begin: &'static str,
    pub setup: &'static str,
    pub close: &'static str,
    pub accept: &'static str,
    pub cancel: &'static str,
    pub locale_kind: &'static str,
}

impl Locale {
    /// The menu words of the given language.
    pub fn new(locale_kind: LocaleKind) -> (locale: Self)
        ensures
            locale_kind == LocaleKind::English ==> {
                &&& locale.begin@ == "begin"@
                &&& locale.setup@ == "setup"@
                &&& locale.close@ == "close"@
                &&& locale.accept@ == "accept"@
                &&& locale.cancel@ == "cancel"@
                &&& locale.locale_kind@ == "language"@
            },
            locale_kind == LocaleKind::Spanish ==> {
                &&& locale.begin@ == "comenzar"@
                &&& locale.setup@ == "configuración"@
                &&& locale.close@ == "terminar"@
                &&& locale.accept@ == "aceptar"@
                &&& locale.cancel@ == "cancelar"@
                &&& locale.locale_kind@ == "lenguaje"@
            },
    {
        match locale_kind {
            LocaleKind::English => Self {
                begin: "begin",
                setup: "setup",
                close: "close",
                accept: "accept",
                cancel: "cancel",
                locale_kind: "language",
            },
            LocaleKind::Spanish => Self {
                begin: "comenzar",
                setup: "configuración",
                close: "terminar",
                accept: "aceptar",
                cancel: "cancelar",
                locale_kind: "lenguaje",
            },
        }
    }
}

} // verus!
