use vstd::prelude::*;

verus! {

/// The response structure for the Fun Translations API
#[derive(Debug)]
pub struct TranslateResponse {
    pub success: TranslateSuccess,
    pub contents: TranslateContents,
}

/// The success metadata returned by the Fun Translations API
#[derive(Debug)]
pub struct TranslateSuccess {
    pub total: u32,
}

/// The translated content returned by the Fun Translations API
#[derive(Debug)]
pub struct TranslateContents {
    pub translated: String,
}

/// The mathematical value of a [`TranslateResponse`]: the number of
/// translations that succeeded, and the translated text.
pub ghost struct TranslateResponseView {
    pub total: nat,
    pub translated: Seq<char>,
}

impl View for TranslateSuccess {
    type V = nat;

    /// The metadata is known by the number of translations that succeeded.
    open spec fn view(&self) -> nat {
        self.total as nat
    }
}

impl View for TranslateContents {
    type V = Seq<char>;

    /// The contents are known by the translated text.
    open spec fn view(&self) -> Seq<char> {
        self.translated@
    }
}

impl View for TranslateResponse {
    type V = TranslateResponseView;

    open spec fn view(&self) -> TranslateResponseView {
        TranslateResponseView { total: self.success@, translated: self.contents@ }
    }
}

} // verus!
