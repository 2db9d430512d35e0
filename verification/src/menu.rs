//! The tray-menu model: an ordered sequence of `{id, label}` pairs,
//! derived deterministically from the window visibility and the
//! audio-alert flag. It is a pure projection of that state, never an
//! independent source of truth.

use vstd::prelude::*;
use vstd::string::StringExecFns;
use crate::coordinator::WindowVisibility;

verus! {

/// One entry of the tray menu.
pub struct MenuItem {
    pub id: String,
    pub label: String,
}

impl View for MenuItem {
    type V = (Seq<char>, Seq<char>);

    open spec fn view(&self) -> (Seq<char>, Seq<char>) {
        (self.id@, self.label@)
    }
}

/// The ordered tray menu, viewed as a sequence of `(id, label)` pairs.
pub struct TrayMenuModel {
    pub items: Vec<MenuItem>,
}

impl View for TrayMenuModel {
    type V = Seq<(Seq<char>, Seq<char>)>;

    open spec fn view(&self) -> Seq<(Seq<char>, Seq<char>)> {
        self.items@.map_values(|it: MenuItem| it@)
    }
}

/// The label of the show/hide item: `Show` offers to reveal a hidden
/// window, `Hide` offers to hide a visible one.
pub open spec fn show_hide_label(visibility: WindowVisibility) -> Seq<char> {
    if visibility is Hidden {
        "Show"@
    } else {
        "Hide"@
    }
}

/// The label of the audio-toggle item, reflecting the current flag.
pub open spec fn audio_label(audio_enabled: bool) -> Seq<char> {
    if audio_enabled {
        "Audio ON"@
    } else {
        "Audio OFF"@
    }
}

/// The menu derived from the given state: a show/hide item, the
/// audio toggle, and the quit item, in that order.
pub open spec fn spec_menu(visibility: WindowVisibility, audio_enabled: bool) -> Seq<
    (Seq<char>, Seq<char>),
> {
    seq![
        ("show"@, show_hide_label(visibility)),
        ("toggle_audio"@, audio_label(audio_enabled)),
        ("quit"@, "Quit"@),
    ]
}

/// Rebuilds the whole menu from the given state.
pub fn render_menu(visibility: WindowVisibility, audio_enabled: bool) -> (r: TrayMenuModel)
    ensures
        r@ == spec_menu(visibility, audio_enabled),
{
    let show_hide_text: &str = match visibility {
        WindowVisibility::Hidden => "Show",
        WindowVisibility::Visible => "Hide",
    };
    let audio_text: &str = if audio_enabled {
        "Audio ON"
    } else {
        "Audio OFF"
    };
    let mut items: Vec<MenuItem> = Vec::new();
    items.push(MenuItem { id: String::from_str("show"), label: String::from_str(show_hide_text) });
    items.push(
        MenuItem { id: String::from_str("toggle_audio"), label: String::from_str(audio_text) },
    );
    items.push(MenuItem { id: String::from_str("quit"), label: String::from_str("Quit") });
    let r = TrayMenuModel { items };
    proof {
        assert(r@ =~= spec_menu(visibility, audio_enabled));
    }
    r
}

} // verus!
