//! Properties of the editor that span several operations: what an edit
//! leaves behind, what undo and cancel give back, and what every step
//! keeps.
use vstd::prelude::*;
use crate::events::{
    delete_confirm_key, field_search_key, help_key, key_step, loader_key, loader_search_key,
    name_input_key, picker_key_step, preview_key, rename_key, restart_key, KeyCode,
};
use crate::state::{
    apply_filter_view, commit_field_view, field_matches, field_search_results, filter_fields,
    entry_shown, filter_entries, loader_query, refreshed_view, EntryView,
    ThemeFilter, cancel_load_view, close_picker_view, name_filter, normalized_name, trim_dash_end,
    trim_dash_start, element_component, element_index, element_single_color,
    element_order, next_in_order, open_loader_view, open_picker_view, other_attribute,
    paste_view, prev_in_order, push_undo_seq, resume_loaded_view,
    selected_color, set_color_view, undo_view, move_up_view, move_down_view, move_to_view,
    set_filter_view, AppView, InputMode, PendingView,
    PreviewAttribute, PreviewElement, UNDO_LIMIT, element_label, lemma_filter_fields_len, move_field_view, push_name_char_view,
};
use crate::text::{ascii_lower, ascii_lower_seq, sort_texts, texts_sorted, lemma_sort_texts_sorted};
use crate::theme::{player_types, type_label, RgbColor, ThemeComponent, ThemeComponentType, ThemeView};

verus! {

/// Setting a color of the selected element and reading it back gives that
/// color; the other attribute, the emphasis levels, the other components
/// and the theme's name stay as they were.
pub proof fn lemma_set_color_then_get(v: AppView, a: PreviewAttribute, c: RgbColor)
    requires
        v.theme.comps.contains_key(element_component(v.selected_element)),
    ensures
        ({
            let w = set_color_view(v, a, c);
            &&& selected_color(w, a) == c
            &&& selected_color(w, other_attribute(a)) == selected_color(v, other_attribute(a))
            &&& same_emphasis(
                w.theme.comps[element_component(v.selected_element)],
                v.theme.comps[element_component(v.selected_element)],
            )
            &&& w.theme.name == v.theme.name
            &&& w.theme.comps.dom() == v.theme.comps.dom()
            &&& forall|t: ThemeComponentType|
                t != element_component(v.selected_element) && #[trigger] v.theme.comps.contains_key(t)
                    ==> w.theme.comps[t] == v.theme.comps[t]
        }),
{
    let w = set_color_view(v, a, c);
    assert(w.theme.comps.dom() =~= v.theme.comps.dom());
}

/// The two components have the same emphasis levels.
pub open spec fn same_emphasis(a: ThemeComponent, b: ThemeComponent) -> bool {
    a.emphasis_0 == b.emphasis_0 && a.emphasis_1 == b.emphasis_1 && a.emphasis_2 == b.emphasis_2
        && a.emphasis_3 == b.emphasis_3
}

/// Undo right after a paste gives back the theme, the selection and (while
/// the history was not full) the undo history as they were before the
/// paste.
pub proof fn lemma_undo_reverts_paste(v: AppView)
    requires
        v.clipboard_color is Some,
        v.theme.comps.contains_key(element_component(v.selected_element)),
    ensures
        ({
            let w = undo_view(paste_view(v));
            &&& w.theme == v.theme
            &&& w.selected_element == v.selected_element
            &&& w.selected_attribute == v.selected_attribute
            &&& v.undo_stack.len() < UNDO_LIMIT ==> w.undo_stack == v.undo_stack
        }),
{
    let p = paste_view(v);
    let w = undo_view(p);
    let ct = element_component(v.selected_element);
    let s = push_undo_seq(
        v.undo_stack,
        (v.selected_element, v.selected_attribute, selected_color(v, v.selected_attribute)),
    );
    assert(p.undo_stack == s);
    assert(s.last() == (v.selected_element, v.selected_attribute, selected_color(v, v.selected_attribute)));
    let orig = v.theme.comps[ct];
    assert(w.theme.comps[ct] == orig);
    assert(w.theme.comps =~= v.theme.comps);
    if v.undo_stack.len() < UNDO_LIMIT {
        assert(s.drop_last() =~= v.undo_stack);
    }
}

/// What the color picker does while it is open: set the edited attribute
/// to the editor's color, set an attribute to a color, or switch the edited
/// attribute.
pub enum PickerStep {
    Apply(RgbColor),
    SetColor(PreviewAttribute, RgbColor),
    Switch,
}

/// The state after one color picker step ([`App::apply_current_color`],
/// [`App::set_color_by_attr`], [`App::switch_editing_attribute`]).
pub open spec fn picker_step(v: AppView, step: PickerStep) -> AppView {
    match step {
        PickerStep::Apply(c) => set_color_view(v, v.selected_attribute, c),
        PickerStep::SetColor(a, c) => set_color_view(v, a, c),
        PickerStep::Switch => AppView { selected_attribute: other_attribute(v.selected_attribute), ..v },
    }
}

/// The state after the color picker took each step of `edits` in turn.
pub open spec fn picker_edits(v: AppView, edits: Seq<PickerStep>) -> AppView
    decreases edits.len(),
{
    if edits.len() == 0 {
        v
    } else {
        picker_step(picker_edits(v, edits.drop_last()), edits.last())
    }
}

proof fn lemma_picker_edits_keep(v: AppView, edits: Seq<PickerStep>)
    requires
        v.theme.comps.contains_key(element_component(v.selected_element)),
    ensures
        ({
            let w = picker_edits(v, edits);
            &&& w.selected_element == v.selected_element
            &&& w.original_component == v.original_component
            &&& w.undo_stack == v.undo_stack
            &&& w.theme.name == v.theme.name
            &&& w.theme.comps.dom() == v.theme.comps.dom()
            &&& same_emphasis(
                w.theme.comps[element_component(v.selected_element)],
                v.theme.comps[element_component(v.selected_element)],
            )
            &&& forall|t: ThemeComponentType|
                t != element_component(v.selected_element) && #[trigger] v.theme.comps.contains_key(t)
                    ==> w.theme.comps[t] == v.theme.comps[t]
        }),
    decreases edits.len(),
{
    if edits.len() > 0 {
        lemma_picker_edits_keep(v, edits.drop_last());
        let w = picker_edits(v, edits.drop_last());
        match edits.last() {
            PickerStep::Apply(c) => lemma_set_color_then_get(w, w.selected_attribute, c),
            PickerStep::SetColor(a, c) => lemma_set_color_then_get(w, a, c),
            PickerStep::Switch => {},
        }
    }
}

/// Cancelling the color picker (Esc) puts the theme back as it was when
/// the picker opened, whatever colors were tried and attributes switched
/// in between, and records nothing for undo.
pub proof fn lemma_picker_cancel_restores(v: AppView, edits: Seq<PickerStep>, enter_edits: bool)
    requires
        v.theme.comps.contains_key(element_component(v.selected_element)),
    ensures
        close_picker_view(picker_edits(open_picker_view(v), edits), false).theme == v.theme,
        close_picker_view(picker_edits(open_picker_view(v), edits), false).input_mode
            == InputMode::Preview,
        close_picker_view(picker_edits(open_picker_view(v), edits), false).undo_stack == v.undo_stack,
        close_picker_view(picker_edits(open_picker_view(v), edits), false).original_component is None,
        picker_key_step(picker_edits(open_picker_view(v), edits), KeyCode::Esc, false, enter_edits).0.theme
            == v.theme,
{
    let o = open_picker_view(v);
    lemma_picker_edits_keep(o, edits);
    let w = picker_edits(o, edits);
    let r = close_picker_view(w, false);
    assert(r.theme.comps =~= v.theme.comps);
}

/// The state after `n` undos in a row.
pub open spec fn undo_times(v: AppView, n: nat) -> AppView
    decreases n,
{
    if n == 0 {
        v
    } else {
        undo_view(undo_times(v, (n - 1) as nat))
    }
}

/// How many entries confirming the color picker records for undo: one for
/// each of foreground and background that differs from the component as
/// the picker found it.
pub open spec fn changed_count(now: ThemeComponent, before: ThemeComponent) -> nat {
    (if now.base != before.base { 1nat } else { 0nat }) + (if now.background != before.background {
        1nat
    } else {
        0nat
    })
}

/// Confirming the color picker and then undoing once for each color it
/// changed gives back the theme as it was when the picker opened.
pub proof fn lemma_undo_reverts_picker(v: AppView, edits: Seq<PickerStep>)
    requires
        v.theme.comps.contains_key(element_component(v.selected_element)),
    ensures
        ({
            let ct = element_component(v.selected_element);
            let e = picker_edits(open_picker_view(v), edits);
            undo_times(close_picker_view(e, true), changed_count(e.theme.comps[ct], v.theme.comps[ct])).theme
                == v.theme
        }),
{
    let ct = element_component(v.selected_element);
    let el = v.selected_element;
    let o = open_picker_view(v);
    lemma_picker_edits_keep(o, edits);
    let e = picker_edits(o, edits);
    let w = close_picker_view(e, true);
    let cur = e.theme.comps[ct];
    let orig = v.theme.comps[ct];
    let s = e.undo_stack;
    let bentry = (el, PreviewAttribute::Base, orig.base);
    let gentry = (el, PreviewAttribute::Background, orig.background);
    let n = changed_count(cur, orig);
    assert(undo_times(w, 0) == w);
    if n == 0 {
        assert(cur == orig);
        assert(w.theme.comps =~= v.theme.comps);
    } else if cur.base != orig.base && cur.background == orig.background {
        assert(w.undo_stack == push_undo_seq(s, bentry));
        assert(undo_times(w, 1) == undo_view(w));
        let u = undo_view(w);
        assert(u.theme.comps[ct] == orig);
        assert(u.theme.comps =~= v.theme.comps);
    } else if cur.base == orig.base && cur.background != orig.background {
        assert(w.undo_stack == push_undo_seq(s, gentry));
        assert(undo_times(w, 1) == undo_view(w));
        let u = undo_view(w);
        assert(u.theme.comps[ct] == orig);
        assert(u.theme.comps =~= v.theme.comps);
    } else {
        let s1 = push_undo_seq(s, bentry);
        let s2 = push_undo_seq(s1, gentry);
        assert(w.undo_stack == s2);
        assert(s2.drop_last().last() == bentry) by {
            if s1.push(gentry).len() > UNDO_LIMIT {
                assert(s2.drop_last() =~= s1.drop_first());
            } else {
                assert(s2.drop_last() =~= s1);
            }
        }
        assert(undo_times(w, 2) == undo_view(undo_view(w)));
        let u1 = undo_view(w);
        let u2 = undo_view(u1);
        assert(u1.undo_stack == s2.drop_last());
        assert(u2.theme.comps[ct] == orig);
        assert(u2.theme.comps =~= v.theme.comps);
    }
}

/// A step taken in the theme loader before leaving it: moving the
/// selection, changing the filter, filtering again, or a previewed load
/// coming back.
pub enum LoaderStep {
    Up,
    Down,
    To(usize),
    Filter(ThemeFilter),
    Refilter,
    Previewed(Result<ThemeView, Seq<char>>),
}

/// The state after one loader step.
pub open spec fn loader_step(v: AppView, step: LoaderStep) -> AppView {
    match step {
        LoaderStep::Up => move_up_view(v).0,
        LoaderStep::Down => move_down_view(v).0,
        LoaderStep::To(i) => move_to_view(v, i).0,
        LoaderStep::Filter(f) => set_filter_view(v, f).0,
        LoaderStep::Refilter => apply_filter_view(v),
        LoaderStep::Previewed(r) => resume_loaded_view(AppView { pending: PendingView::PreviewLoad, ..v }, r).0,
    }
}

/// The state after the loader took each step of `steps` in turn.
pub open spec fn loader_steps(v: AppView, steps: Seq<LoaderStep>) -> AppView
    decreases steps.len(),
{
    if steps.len() == 0 {
        v
    } else {
        loader_step(loader_steps(v, steps.drop_last()), steps.last())
    }
}

proof fn lemma_steps_keep_original(v: AppView, steps: Seq<LoaderStep>)
    ensures
        loader_steps(v, steps).original_theme == v.original_theme,
    decreases steps.len(),
{
    if steps.len() > 0 {
        lemma_steps_keep_original(v, steps.drop_last());
    }
}

/// Leaving the theme loader with Esc gives back the theme that was shown
/// when the loader opened, whatever was moved, filtered or previewed in
/// between; the name field holds that theme's name again, the search is
/// cleared and the preview is shown without a message.
pub proof fn lemma_loader_cancel_restores(v: AppView, steps: Seq<LoaderStep>)
    ensures
        ({
            let w = cancel_load_view(loader_steps(open_loader_view(v), steps));
            &&& w.theme == v.theme
            &&& w.theme_name_input == v.theme.name
            &&& w.original_theme is None
            &&& w.input_mode == InputMode::Preview
            &&& w.theme_search_query.len() == 0
            &&& !w.search_focused
            &&& w.message is None
        }),
{
    lemma_steps_keep_original(open_loader_view(v), steps);
}

/// Up after Down, and Down after Up, select the element they started
/// from.
pub proof fn lemma_navigation_round_trip(e: PreviewElement)
    ensures
        prev_in_order(next_in_order(e)) == e,
        next_in_order(prev_in_order(e)) == e,
        element_order()[element_index(e)] == e,
{
}

/// In the preview, Tab switches between foreground and background, except
/// on a single-color element (a pane border or a multiplayer color),
/// where it changes nothing;
/// Tab twice gives back the state with the message cleared.
pub proof fn lemma_tab_toggles(v: AppView, at: Option<std::time::Instant>)
    requires
        v.input_mode == InputMode::Preview,
    ensures
        ({
            let w = key_step(v, KeyCode::Tab, at).0;
            &&& element_single_color(v.selected_element) ==> w.selected_attribute == v.selected_attribute
            &&& !element_single_color(v.selected_element) ==> w.selected_attribute
                == other_attribute(v.selected_attribute)
            &&& key_step(w, KeyCode::Tab, at).0 == AppView { message: None, ..v }
        }),
{
}

/// Recording one change appends it to the undo history, dropping the
/// oldest entry when the history is full: the history stays within
/// [`UNDO_LIMIT`] entries, with the newest one last.
pub proof fn lemma_undo_history_bounded(
    s: Seq<(PreviewElement, PreviewAttribute, RgbColor)>,
    x: (PreviewElement, PreviewAttribute, RgbColor),
)
    requires
        s.len() <= UNDO_LIMIT,
    ensures
        push_undo_seq(s, x) == (if s.len() == UNDO_LIMIT {
            s.drop_first().push(x)
        } else {
            s.push(x)
        }),
        push_undo_seq(s, x).len() <= UNDO_LIMIT,
        push_undo_seq(s, x).last() == x,
{
    if s.len() == UNDO_LIMIT {
        assert(s.push(x).drop_first() =~= s.drop_first().push(x));
    }
}

proof fn lemma_dialog_keys_keep_undo(v: AppView, key: KeyCode)
    ensures
        name_input_key(v, key, false).0.undo_stack == v.undo_stack,
        name_input_key(v, key, true).0.undo_stack == v.undo_stack,
        field_search_key(v, key).undo_stack == v.undo_stack,
        help_key(v, key).undo_stack == v.undo_stack,
        rename_key(v, key).0.undo_stack == v.undo_stack,
        delete_confirm_key(v, key).0.undo_stack == v.undo_stack,
        restart_key(v, key).0.undo_stack == v.undo_stack,
{
}

proof fn lemma_loader_keys_keep_undo(v: AppView, key: KeyCode)
    ensures
        loader_search_key(v, key).0.undo_stack == v.undo_stack,
        loader_key(v, key).0.undo_stack == v.undo_stack,
{
}

proof fn lemma_preview_keys_keep_undo_bound(v: AppView, key: KeyCode, at: Option<std::time::Instant>)
    requires
        v.undo_stack.len() <= UNDO_LIMIT,
    ensures
        preview_key(v, key, at).0.undo_stack.len() <= UNDO_LIMIT,
{
    let e = v.selected_element;
    lemma_undo_history_bounded(v.undo_stack, (e, v.selected_attribute, selected_color(v, v.selected_attribute)));
}

/// Every key, and closing the color picker, keeps the undo history within
/// [`UNDO_LIMIT`] entries.
pub proof fn lemma_steps_keep_undo_bound(v: AppView, key: KeyCode, at: Option<std::time::Instant>, save: bool)
    requires
        v.undo_stack.len() <= UNDO_LIMIT,
    ensures
        key_step(v, key, at).0.undo_stack.len() <= UNDO_LIMIT,
        close_picker_view(v, save).undo_stack.len() <= UNDO_LIMIT,
{
    lemma_dialog_keys_keep_undo(v, key);
    lemma_loader_keys_keep_undo(v, key);
    lemma_preview_keys_keep_undo_bound(v, key, at);
    let e = v.selected_element;
    match v.original_component {
        Some(orig) => {
            let s1 = push_undo_seq(v.undo_stack, (e, PreviewAttribute::Base, orig.base));
            lemma_undo_history_bounded(v.undo_stack, (e, PreviewAttribute::Base, orig.base));
            lemma_undo_history_bounded(v.undo_stack, (e, PreviewAttribute::Background, orig.background));
            lemma_undo_history_bounded(s1, (e, PreviewAttribute::Background, orig.background));
        },
        None => {},
    }
}

/// A character a saved theme name may hold: a lowercase ASCII letter, a
/// digit, `-` or `_`.
pub open spec fn saved_name_char(c: char) -> bool {
    ('0' <= c && c <= '9') || ('a' <= c && c <= 'z') || c == '-' || c == '_'
}

/// A name as themes are saved under: only [`saved_name_char`] characters,
/// and no `-` at either end.
pub open spec fn is_saved_name(s: Seq<char>) -> bool {
    &&& forall|i: int| 0 <= i < s.len() ==> saved_name_char(#[trigger] s[i])
    &&& s.len() > 0 ==> s[0] != '-' && s.last() != '-'
}

proof fn lemma_name_filter_chars(s: Seq<char>)
    ensures
        forall|i: int| 0 <= i < name_filter(s).len() ==> saved_name_char(#[trigger] name_filter(s)[i]),
    decreases s.len(),
{
    if s.len() > 0 {
        lemma_name_filter_chars(s.drop_last());
        let c = s.last();
        let rest = name_filter(s.drop_last());
        if 'A' <= c && c <= 'Z' {
            assert('a' <= ascii_lower(c) && ascii_lower(c) <= 'z');
        }
        assert forall|i: int| 0 <= i < name_filter(s).len() implies saved_name_char(
            #[trigger] name_filter(s)[i],
        ) by {
            if i < rest.len() {
                assert(name_filter(s)[i] == rest[i]);
            }
        }
    }
}

proof fn lemma_name_filter_fixed(s: Seq<char>)
    requires
        forall|i: int| 0 <= i < s.len() ==> saved_name_char(#[trigger] s[i]),
    ensures
        name_filter(s) == s,
    decreases s.len(),
{
    if s.len() > 0 {
        let t = s.drop_last();
        assert forall|i: int| 0 <= i < t.len() implies saved_name_char(#[trigger] t[i]) by {
            assert(t[i] == s[i]);
        }
        lemma_name_filter_fixed(t);
        assert(saved_name_char(s[s.len() - 1]));
        assert(t.push(s.last()) =~= s);
    }
}

proof fn lemma_trim_start(s: Seq<char>)
    ensures
        ({
            let r = trim_dash_start(s);
            &&& r.len() <= s.len()
            &&& r == s.skip(s.len() - r.len())
            &&& r.len() > 0 ==> r[0] != '-'
        }),
    decreases s.len(),
{
    if s.len() > 0 && s[0] == '-' {
        lemma_trim_start(s.drop_first());
        let r = trim_dash_start(s);
        assert(r =~= s.skip(s.len() - r.len()));
    } else {
        assert(s.skip(0) =~= s);
    }
}

proof fn lemma_trim_end(s: Seq<char>)
    ensures
        ({
            let r = trim_dash_end(s);
            &&& r.len() <= s.len()
            &&& r == s.take(r.len() as int)
            &&& r.len() > 0 ==> r.last() != '-'
        }),
    decreases s.len(),
{
    if s.len() > 0 && s.last() == '-' {
        lemma_trim_end(s.drop_last());
        let r = trim_dash_end(s);
        assert(r =~= s.take(r.len() as int));
    } else {
        assert(s.take(s.len() as int) =~= s);
    }
}

/// A normalized theme name is a saved name, and normalizing a saved name
/// gives it back: normalizing twice is normalizing once.
pub proof fn lemma_normalized_name_idempotent(s: Seq<char>)
    ensures
        is_saved_name(normalized_name(s)),
        normalized_name(normalized_name(s)) == normalized_name(s),
{
    let f = name_filter(s);
    lemma_name_filter_chars(s);
    lemma_trim_start(f);
    let t = trim_dash_start(f);
    lemma_trim_end(t);
    let r = trim_dash_end(t);
    assert forall|i: int| 0 <= i < r.len() implies saved_name_char(#[trigger] r[i]) by {
        assert(r[i] == t[i]);
        assert(t[i] == f[i + (f.len() - t.len())]);
    }
    if r.len() > 0 {
        assert(r[0] == t[0]);
    }
    lemma_saved_name_fixed(r);
}

/// Normalizing a name that is already a saved name changes nothing.
pub proof fn lemma_saved_name_fixed(s: Seq<char>)
    requires
        is_saved_name(s),
    ensures
        normalized_name(s) == s,
{
    lemma_name_filter_fixed(s);
}

proof fn lemma_filter_entries_exact(s: Seq<EntryView>, f: ThemeFilter, q: Seq<char>)
    ensures
        forall|i: int|
            0 <= i < filter_entries(s, f, q).len() ==> entry_shown(#[trigger] filter_entries(s, f, q)[i], f, q)
                && s.contains(filter_entries(s, f, q)[i]),
        forall|e: EntryView| #[trigger] s.contains(e) && entry_shown(e, f, q) ==> filter_entries(s, f, q).contains(e),
    decreases s.len(),
{
    if s.len() > 0 {
        let t = s.drop_last();
        lemma_filter_entries_exact(t, f, q);
        let r = filter_entries(s, f, q);
        let rt = filter_entries(t, f, q);
        assert forall|i: int| 0 <= i < r.len() implies entry_shown(#[trigger] r[i], f, q) && s.contains(r[i]) by {
            if i < rt.len() {
                assert(r[i] == rt[i]);
                let k = choose|k: int| 0 <= k < t.len() && t[k] == rt[i];
                assert(s[k] == t[k]);
            } else {
                assert(r[i] == s.last());
                assert(s[s.len() - 1] == s.last());
            }
        }
        assert forall|e: EntryView| #[trigger] s.contains(e) && entry_shown(e, f, q) implies r.contains(e) by {
            let k = choose|k: int| 0 <= k < s.len() && s[k] == e;
            if k < s.len() - 1 {
                assert(t[k] == e);
                assert(t.contains(e));
                let m = choose|m: int| 0 <= m < rt.len() && rt[m] == e;
                assert(r[m] == rt[m]);
            } else {
                assert(r[r.len() - 1] == e);
            }
        }
    }
}

/// The theme loader lists exactly the themes that pass its filter and its
/// search query, and keeps the selection on a listed theme (at the start
/// of an empty list).
pub proof fn lemma_loader_lists_matches(v: AppView)
    ensures
        ({
            let w = apply_filter_view(v);
            let q = loader_query(v);
            &&& forall|i: int|
                0 <= i < w.loadable_themes.len() ==> entry_shown(#[trigger] w.loadable_themes[i], v.theme_filter, q)
                    && v.all_themes.contains(w.loadable_themes[i])
            &&& forall|e: EntryView|
                #[trigger] v.all_themes.contains(e) && entry_shown(e, v.theme_filter, q)
                    ==> w.loadable_themes.contains(e)
            &&& w.loadable_themes.len() > 0 ==> w.selected_theme_index < w.loadable_themes.len()
            &&& w.loadable_themes.len() == 0 ==> w.selected_theme_index == 0
        }),
{
    lemma_filter_entries_exact(v.all_themes, v.theme_filter, loader_query(v));
}

/// Reading the theme list again lists the saved themes first, in name
/// order and each as often as it was found, then the built-in ones in the
/// order given.
pub proof fn lemma_refresh_lists_sorted(
    v: AppView,
    names: Seq<Seq<char>>,
    builtin: Seq<&'static str>,
)
    ensures
        ({
            let all = refreshed_view(v, Ok(names), builtin).all_themes;
            let saved = all.take(names.len() as int).map_values(|e: EntryView| e.name);
            &&& all.len() == names.len() + builtin.len()
            &&& texts_sorted(saved)
            &&& saved.to_multiset() == names.to_multiset()
            &&& forall|i: int| 0 <= i < names.len() ==> !(#[trigger] all[i]).builtin
            &&& forall|i: int|
                0 <= i < builtin.len() ==> #[trigger] all[names.len() + i] == (EntryView {
                    builtin: true,
                    name: builtin[i]@,
                })
        }),
{
    lemma_sort_texts_sorted(names);
    let sorted = sort_texts(names);
    let all = refreshed_view(v, Ok(names), builtin).all_themes;
    vstd::seq_lib::to_multiset_len(sorted);
    vstd::seq_lib::to_multiset_len(names);
    let saved = all.take(names.len() as int).map_values(|e: EntryView| e.name);
    assert(saved =~= sorted);
}

proof fn lemma_filter_fields_exact(s: Seq<PreviewElement>, q: Seq<char>)
    ensures
        forall|i: int|
            0 <= i < filter_fields(s, q).len() ==> field_matches(#[trigger] filter_fields(s, q)[i], q)
                && s.contains(filter_fields(s, q)[i]),
        forall|e: PreviewElement| #[trigger] s.contains(e) && field_matches(e, q) ==> filter_fields(s, q).contains(e),
    decreases s.len(),
{
    if s.len() > 0 {
        let t = s.drop_last();
        lemma_filter_fields_exact(t, q);
        let r = filter_fields(s, q);
        let rt = filter_fields(t, q);
        assert forall|i: int| 0 <= i < r.len() implies field_matches(#[trigger] r[i], q) && s.contains(r[i]) by {
            if i < rt.len() {
                assert(r[i] == rt[i]);
                let k = choose|k: int| 0 <= k < t.len() && t[k] == rt[i];
                assert(s[k] == t[k]);
            } else {
                assert(r[i] == s.last());
                assert(s[s.len() - 1] == s.last());
            }
        }
        assert forall|e: PreviewElement| #[trigger] s.contains(e) && field_matches(e, q) implies r.contains(e) by {
            let k = choose|k: int| 0 <= k < s.len() && s[k] == e;
            if k < s.len() - 1 {
                assert(t[k] == e);
                assert(t.contains(e));
                let m = choose|m: int| 0 <= m < rt.len() && rt[m] == e;
                assert(r[m] == rt[m]);
            } else {
                assert(r[r.len() - 1] == e);
            }
        }
    }
}

/// The field search lists exactly the elements whose label holds the
/// query (ignoring ASCII case), and Enter selects one of them.
pub proof fn lemma_field_search_matches(v: AppView)
    ensures
        ({
            let q = ascii_lower_seq(v.field_search_query);
            let r = field_search_results(v);
            &&& forall|i: int| 0 <= i < r.len() ==> field_matches(#[trigger] r[i], q)
            &&& forall|e: PreviewElement| field_matches(e, q) ==> #[trigger] r.contains(e)
            &&& commit_field_view(v).selected_element != v.selected_element
                ==> field_matches(commit_field_view(v).selected_element, q)
        }),
{
    let q = ascii_lower_seq(v.field_search_query);
    lemma_filter_fields_exact(element_order(), q);
    assert forall|e: PreviewElement| field_matches(e, q) implies #[trigger] field_search_results(v).contains(e) by {
        assert(element_order()[element_index(e)] == e);
        assert(element_order().contains(e));
    }
}


/// Each preview element edits the theme component it shows: the tab
/// elements the ribbons, the pane borders the frames, and every other
/// element the component of its own name.
pub proof fn lemma_element_components()
    ensures
        element_component(PreviewElement::TabSelected) == ThemeComponentType::RibbonSelected,
        element_component(PreviewElement::TabUnselected) == ThemeComponentType::RibbonUnselected,
        element_component(PreviewElement::PaneSelected) == ThemeComponentType::FrameSelected,
        element_component(PreviewElement::TextSelected) == ThemeComponentType::TextSelected,
        element_component(PreviewElement::TextUnselected) == ThemeComponentType::TextUnselected,
        element_component(PreviewElement::PaneUnselected) == ThemeComponentType::FrameUnselected,
        element_component(PreviewElement::PaneHighlight) == ThemeComponentType::FrameHighlight,
        element_component(PreviewElement::TableTitle) == ThemeComponentType::TableTitle,
        element_component(PreviewElement::TableCellSelected) == ThemeComponentType::TableCellSelected,
        element_component(PreviewElement::TableCellUnselected) == ThemeComponentType::TableCellUnselected,
        element_component(PreviewElement::ListSelected) == ThemeComponentType::ListSelected,
        element_component(PreviewElement::ListUnselected) == ThemeComponentType::ListUnselected,
        element_component(PreviewElement::ExitSuccess) == ThemeComponentType::ExitCodeSuccess,
        element_component(PreviewElement::ExitError) == ThemeComponentType::ExitCodeError,
        element_component(PreviewElement::Player1) == ThemeComponentType::Player1,
        element_component(PreviewElement::Player2) == ThemeComponentType::Player2,
        element_component(PreviewElement::Player3) == ThemeComponentType::Player3,
        element_component(PreviewElement::Player4) == ThemeComponentType::Player4,
        element_component(PreviewElement::Player5) == ThemeComponentType::Player5,
        element_component(PreviewElement::Player6) == ThemeComponentType::Player6,
        element_component(PreviewElement::Player7) == ThemeComponentType::Player7,
        element_component(PreviewElement::Player8) == ThemeComponentType::Player8,
        element_component(PreviewElement::Player9) == ThemeComponentType::Player9,
        element_component(PreviewElement::Player10) == ThemeComponentType::Player10,
{
}

/// An element whose label names a component type edits that component,
/// and no two elements edit the same component.
#[verifier::rlimit(80)]
pub proof fn lemma_element_component_names(e: PreviewElement, f: PreviewElement, t: ThemeComponentType)
    ensures
        element_label(e) == type_label(t) ==> element_component(e) == t,
        element_component(e) == element_component(f) ==> e == f,
{
    reveal_strlit("Exit (Error)");
    reveal_strlit("Exit (Success)");
    reveal_strlit("Exit Code (Error)");
    reveal_strlit("Exit Code (Success)");
    reveal_strlit("Frame (Selected)");
    reveal_strlit("Frame (Unselected)");
    reveal_strlit("Frame Highlight");
    reveal_strlit("List (Selected)");
    reveal_strlit("List (Unselected)");
    reveal_strlit("List Item (Selected)");
    reveal_strlit("List Item (Unselected)");
    reveal_strlit("Pane (Highlight)");
    reveal_strlit("Pane (Selected)");
    reveal_strlit("Pane (Unselected)");
    reveal_strlit("Player 1");
    reveal_strlit("Player 10");
    reveal_strlit("Player 2");
    reveal_strlit("Player 3");
    reveal_strlit("Player 4");
    reveal_strlit("Player 5");
    reveal_strlit("Player 6");
    reveal_strlit("Player 7");
    reveal_strlit("Player 8");
    reveal_strlit("Player 9");
    reveal_strlit("Ribbon/Tab (Selected)");
    reveal_strlit("Ribbon/Tab (Unselected)");
    reveal_strlit("Tab (Selected)");
    reveal_strlit("Tab (Unselected)");
    reveal_strlit("Table Cell (Selected)");
    reveal_strlit("Table Cell (Unselected)");
    reveal_strlit("Table Title");
    reveal_strlit("Text (Selected)");
    reveal_strlit("Text (Unselected)");
    let a = element_label(e);
    let b = type_label(t);
    if a == b {
        assert(a.len() == b.len() && a[0] == b[0] && a[7] == b[7] && a[a.len() - 2] == b[b.len() - 2]);
    }
}


/// In a non-empty theme loader, Up selects the entry above (the last one
/// from the first) and Down the entry below (the first one from the last),
/// each undoing the other.
pub proof fn lemma_loader_up_down(v: AppView)
    requires
        0 < v.loadable_themes.len() <= usize::MAX,
        v.selected_theme_index < v.loadable_themes.len(),
    ensures
        ({
            let n = v.loadable_themes.len();
            let i = v.selected_theme_index;
            let up = move_up_view(v).0.selected_theme_index;
            let down = move_down_view(v).0.selected_theme_index;
            &&& up < n && down < n
            &&& i > 0 ==> up + 1 == i
            &&& i == 0 ==> up == n - 1
            &&& i + 1 < n ==> down == i + 1
            &&& i + 1 == n ==> down == 0
            &&& move_down_view(move_up_view(v).0).0.selected_theme_index == i
            &&& move_up_view(move_down_view(v).0).0.selected_theme_index == i
        }),
{
    let n = v.loadable_themes.len() as int;
    let i = v.selected_theme_index as int;
    assert(i % n == i) by (nonlinear_arith)
        requires
            0 <= i < n,
    ;
    assert(n % n == 0) by (nonlinear_arith)
        requires
            n > 0,
    ;
    if i + 1 < n {
        assert((i + 1) % n == i + 1) by (nonlinear_arith)
            requires
                0 <= i + 1 < n,
        ;
    }
}

/// The name prompt accepts exactly the characters a saved name may hold,
/// uppercase ASCII letters (which saving lowercases) and the space (which
/// saving turns into `-`): such a character is appended, any other leaves
/// the input as it was.
pub proof fn lemma_name_prompt_accepts(v: AppView, c: char)
    ensures
        (saved_name_char(c) || c == ' ' || ('A' <= c && c <= 'Z')) ==> push_name_char_view(v, c).theme_name_input
            == v.theme_name_input.push(c),
        !(saved_name_char(c) || c == ' ' || ('A' <= c && c <= 'Z')) ==> push_name_char_view(
            v,
            c,
        ).theme_name_input == v.theme_name_input,
{
}

/// A theme component that is a pane border's color.
pub open spec fn frame_component(t: ThemeComponentType) -> bool {
    t == ThemeComponentType::FrameSelected || t == ThemeComponentType::FrameUnselected || t
        == ThemeComponentType::FrameHighlight
}

/// The elements with a single color (no foreground/background pair) are
/// exactly those that edit a frame color or a multiplayer color.
pub proof fn lemma_single_color_elements(e: PreviewElement)
    ensures
        element_single_color(e) <==> (frame_component(element_component(e)) || player_types().contains(
            element_component(e),
        )),
{
    let t = element_component(e);
    if element_index(e) >= 14 {
        assert(player_types()[element_index(e) - 14] == t);
    }
    if player_types().contains(t) {
        let k = choose|k: int| 0 <= k < player_types().len() && player_types()[k] == t;
        assert(player_types()[k] == t);
    }
}

/// `k` times round a list of `n` entries.
pub open spec fn whole_rounds(k: int, n: int) -> int {
    k * n
}

/// Moving through the field search results by `delta` lands on the result
/// `delta` places on, counted round the list: a valid position whose
/// distance from the current one is `delta` plus a whole number of rounds.
/// Up from any result but the first selects the one before it, and Down
/// then Up comes back.
pub proof fn lemma_field_search_moves(v: AppView, delta: i32)
    requires
        field_search_results(v).len() > 0,
        v.field_search_index < field_search_results(v).len(),
    ensures
        ({
            let n = field_search_results(v).len() as int;
            let cur = v.field_search_index as int;
            let new = move_field_view(v, delta).field_search_index as int;
            &&& 0 <= new < n
            &&& exists|k: int| new == cur + delta + #[trigger] whole_rounds(k, n)
            &&& delta == -1 && cur > 0 ==> new == cur - 1
            &&& delta == 1 && cur + 1 < n ==> new == cur + 1
            &&& move_field_view(move_field_view(v, 1i32), -1i32).field_search_index == cur
        }),
{
    let n = field_search_results(v).len() as int;
    let cur = v.field_search_index as int;
    let x = cur + delta;
    vstd::arithmetic::div_mod::lemma_fundamental_div_mod(x, n);
    let q = x / n;
    assert(0 <= x % n < n);
    assert((x % n) == x + (-q) * n) by (nonlinear_arith)
        requires
            x == n * q + (x % n),
    ;
    assert(x % n == x + whole_rounds(-q, n));
    lemma_filter_fields_len(element_order(), ascii_lower_seq(v.field_search_query));
    let w = move_field_view(v, 1i32);
    assert(field_search_results(w) == field_search_results(v));
    assert(cur % n == cur) by (nonlinear_arith)
        requires
            0 <= cur < n,
    ;
    assert((0int - 1) % n == n - 1) by (nonlinear_arith)
        requires
            n > 0,
    ;
    if cur + 1 < n {
        assert((cur + 1) % n == cur + 1) by (nonlinear_arith)
            requires
                0 <= cur + 1 < n,
        ;
        assert(w.field_search_index == cur + 1);
    } else {
        assert((cur + 1) % n == 0) by (nonlinear_arith)
            requires
                cur + 1 == n,
                n > 0,
        ;
        assert(w.field_search_index == 0);
    }
    if cur > 0 {
        assert((cur - 1) % n == cur - 1) by (nonlinear_arith)
            requires
                0 <= cur - 1 < n,
        ;
    }
}

} // verus!
