//! The about dialog: a modal, transient-to-main-window dialog whose
//! fields are the compiled-in constants, plus the translated credits.

use vstd::prelude::*;
use crate::config::{app_id, author, spec_app_id, spec_author, spec_version, version};

verus! {

/// Software license identifiers the dialog can display; the application is
/// published under MPL-2.0.
#[derive(Clone, Copy, Debug, PartialEq, Eq, Structural)]
pub enum License {
    Mpl20,
}

/// The field values of the about dialog, as handed to the shell to render.
#[derive(Debug, Clone, PartialEq, Eq)]
pub struct AboutDialog {
    pub logo_icon_name: &'static str,
    pub license: License,
    pub version: &'static str,
    /// Handle of the main window the dialog is transient for.
    pub transient_for: u64,
    pub modal: bool,
    pub translator_credits: String,
    pub authors: Vec<&'static str>,
    pub artists: Vec<&'static str>,
}

/// The compiled-in fields of an about dialog transient for window `win`:
/// everything but the translator credits, which depend on the locale.
pub open spec fn about_constant_fields(d: AboutDialog, win: nat) -> bool {
    &&& d.logo_icon_name@ == spec_app_id()
    &&& d.license is Mpl20
    &&& d.version@ == spec_version()
    &&& d.transient_for as nat == win
    &&& d.modal
    &&& d.authors@.len() == 1
    &&& d.authors@[0]@ == spec_author()
    &&& d.artists@.len() == 1
    &&& d.artists@[0]@ == spec_author()
}

/// All fields of an about dialog transient for window `win`, with
/// translator credits `credits`.
pub open spec fn about_fields(d: AboutDialog, win: nat, credits: Seq<char>) -> bool {
    &&& about_constant_fields(d, win)
    &&& d.translator_credits@ == credits
}

/// Assemble the about dialog for the window with handle `transient_for`,
/// crediting the translators with `translator_credits`. Every other field
/// is a compiled-in constant.
pub fn build_about_dialog(transient_for: u64, translator_credits: String) -> (d: AboutDialog)
    ensures
        about_fields(d, transient_for as nat, translator_credits@),
{
    let mut authors: Vec<&'static str> = Vec::new();
    authors.push(author());
    let mut artists: Vec<&'static str> = Vec::new();
    artists.push(author());
    AboutDialog {
        logo_icon_name: app_id(),
        license: License::Mpl20,
        version: version(),
        transient_for,
        modal: true,
        translator_credits,
        authors,
        artists,
    }
}

/// Law: the dialog never varies — two dialogs built for the same window and
/// the same translator credits agree on every field. Building one also
/// never mutates the application state: the construction takes no part of
/// it but the window handle.
pub proof fn lemma_about_dialog_deterministic(
    d1: AboutDialog,
    d2: AboutDialog,
    win: nat,
    credits: Seq<char>,
)
    requires
        about_fields(d1, win, credits),
        about_fields(d2, win, credits),
    ensures
        d1.logo_icon_name@ == d2.logo_icon_name@,
        d1.license == d2.license,
        d1.version@ == d2.version@,
        d1.transient_for == d2.transient_for,
        d1.modal == d2.modal,
        d1.translator_credits@ == d2.translator_credits@,
        d1.authors@.len() == d2.authors@.len(),
        d1.authors@[0]@ == d2.authors@[0]@,
        d1.artists@.len() == d2.artists@.len(),
        d1.artists@[0]@ == d2.artists@[0]@,
{
}

} // verus!
