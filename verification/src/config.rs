//! Compiled-in identity of the application: identifier, version,
//! resource paths, author credits, and the quit key chord.

use vstd::prelude::*;

verus! {

/// Reverse-DNS identifier of the application; also the symbolic name of
/// its icon and the stem of its resource paths.
pub open spec fn spec_app_id() -> Seq<char> {
    "com.benzler.colors"@
}

pub fn app_id() -> (r: &'static str)
    ensures
        r@ == spec_app_id(),
{
    "com.benzler.colors"
}

/// Version string shown in the about dialog.
pub open spec fn spec_version() -> Seq<char> {
    "0.1.0"@
}

pub fn version() -> (r: &'static str)
    ensures
        r@ == spec_version(),
{
    "0.1.0"
}

/// Base path under which the application's bundled resources live.
pub open spec fn spec_resource_base_path() -> Seq<char> {
    "/com/benzler/colors/"@
}

pub fn resource_base_path() -> (r: &'static str)
    ensures
        r@ == spec_resource_base_path(),
{
    "/com/benzler/colors/"
}

/// Logical resource path of the application stylesheet.
pub open spec fn spec_style_css_path() -> Seq<char> {
    "/com/benzler/colors/style.css"@
}

pub fn style_css_path() -> (r: &'static str)
    ensures
        r@ == spec_style_css_path(),
{
    "/com/benzler/colors/style.css"
}

/// Key chord bound to the quit action.
pub open spec fn spec_quit_accel_chord() -> Seq<char> {
    "<Control>q"@
}

pub fn quit_accel_chord() -> (r: &'static str)
    ensures
        r@ == spec_quit_accel_chord(),
{
    "<Control>q"
}

/// The single author and artist credited in the about dialog.
pub open spec fn spec_author() -> Seq<char> {
    "FineFindus"@
}

pub fn author() -> (r: &'static str)
    ensures
        r@ == spec_author(),
{
    "FineFindus"
}

} // verus!
