//! Laws of the indentation setters: a tab width set on its own survives a
//! later forced-tab indentation until spaces or tabs are chosen again.

use super::options::{
    FormatOptions, IndentStyle, set_force_tab_width_spec, set_indent_style_width_spec,
    set_indent_width_spec,
};
use vstd::prelude::*;

verus! {

/// What each indentation setter does to the record of a tab width set on its
/// own (`tab_width_explicit`): setting it records it; choosing spaces or
/// tabs forgets it and ties the tab width to the indent; forced tabs and a
/// plain indent width keep it, and keep the tab width wherever it is
/// recorded.
pub proof fn lemma_indentation_setters(o: FormatOptions, w: usize, v: usize)
    ensures
        ({
            let r = set_force_tab_width_spec(v, o);
            r.indent_style == IndentStyle::ForceTabs && r.tab_width == v && r.tab_width_explicit
        }),
        ({
            let r = set_indent_style_width_spec(IndentStyle::Spaces, w, o);
            r.indent_style == IndentStyle::Spaces && r.indent_width == w && r.tab_width == w
                && !r.tab_width_explicit
        }),
        ({
            let r = set_indent_style_width_spec(IndentStyle::Tabs, w, o);
            r.indent_style == IndentStyle::Tabs && r.indent_width == w && r.tab_width == w
                && !r.tab_width_explicit
        }),
        ({
            let r = set_indent_style_width_spec(IndentStyle::ForceTabs, w, o);
            &&& r.indent_style == IndentStyle::ForceTabs
            &&& r.indent_width == w
            &&& r.tab_width == (if o.tab_width_explicit {
                o.tab_width
            } else {
                w
            })
            &&& r.tab_width_explicit == o.tab_width_explicit
        }),
        ({
            let r = set_indent_width_spec(w, o);
            &&& r.indent_width == w
            &&& r.tab_width == (if o.tab_width_explicit {
                o.tab_width
            } else {
                w
            })
            &&& r.tab_width_explicit == o.tab_width_explicit
        }),
{
}

/// Forced tabs after a tab width set on its own keep that width; after
/// spaces or tabs were chosen, the tab width follows the indent.
pub proof fn lemma_forced_tabs_after_history(o: FormatOptions, t: usize, w: usize, v: usize)
    ensures
        ({
            let r = set_indent_style_width_spec(
                IndentStyle::ForceTabs,
                w,
                set_force_tab_width_spec(v, o),
            );
            r.indent_style == IndentStyle::ForceTabs && r.indent_width == w && r.tab_width == v
        }),
        ({
            let r = set_indent_style_width_spec(
                IndentStyle::ForceTabs,
                w,
                set_indent_style_width_spec(IndentStyle::Tabs, t, set_force_tab_width_spec(v, o)),
            );
            r.indent_style == IndentStyle::ForceTabs && r.indent_width == w && r.tab_width == w
        }),
{
}

} // verus!
