//! Verified core of the COSMIC weekly-commits applet: the kinds of service,
//! theme and week the user picks, the colours of the commit boxes, the seven
//! days that are shown, the requests sent to the git hosts, the counting of
//! their answers, the cache fallback and the texts shown in the popup.

pub mod weekly;
pub mod panel;
pub mod popup;
