//! Layout grouping: partitions a notification's ordered component list into
//! maximal contiguous runs of compatible components. Adjacent buttons of
//! either sort cluster into one run; a dropdown always stands alone.

use vstd::prelude::*;

use crate::component::{is_button, ComponentView, NotificationComponent};

verus! {

/// The model of a component list: the sequence of component views.
pub open spec fn components_view(s: Seq<NotificationComponent>) -> Seq<ComponentView> {
    s.map_values(|c: NotificationComponent| c@)
}

/// The model of a group list.
pub open spec fn groups_view(gs: Seq<Vec<NotificationComponent>>) -> Seq<Seq<ComponentView>> {
    gs.map_values(|g: Vec<NotificationComponent>| components_view(g@))
}

/// The grouping of a component sequence, defined by how the last element
/// joins the grouping of the rest: it merges into the final run exactly when
/// it and its left neighbour are both buttons, and otherwise opens a run of
/// its own.
pub open spec fn grouping(s: Seq<ComponentView>) -> Seq<Seq<ComponentView>>
    decreases s.len(),
{
    if s.len() == 0 {
        Seq::empty()
    } else {
        let prefix = grouping(s.drop_last());
        if s.len() >= 2 && is_button(s[s.len() - 2]) && is_button(s.last()) {
            prefix.update(prefix.len() - 1, prefix.last().push(s.last()))
        } else {
            prefix.push(seq![s.last()])
        }
    }
}

/// A non-empty component sequence has a non-empty grouping.
pub proof fn lemma_grouping_len(s: Seq<ComponentView>)
    ensures
        s.len() == 0 ==> grouping(s).len() == 0,
        s.len() > 0 ==> grouping(s).len() > 0,
    decreases s.len(),
{
    if s.len() > 0 {
        lemma_grouping_len(s.drop_last());
    }
}

/// The grouping is lossless: concatenating the groups in order restores the
/// original component sequence exactly.
pub proof fn lemma_grouping_complete(s: Seq<ComponentView>)
    ensures
        grouping(s).flatten_alt() == s,
    decreases s.len(),
{
    if s.len() == 0 {
        assert(grouping(s).flatten_alt() =~= s);
    } else {
        let rest = s.drop_last();
        let p = grouping(rest);
        lemma_grouping_complete(rest);
        lemma_grouping_len(rest);
        if s.len() >= 2 && is_button(s[s.len() - 2]) && is_button(s.last()) {
            let g = grouping(s);
            assert(g.len() == p.len());
            assert(g.drop_last() =~= p.drop_last());
            assert(g.flatten_alt() == g.drop_last().flatten_alt().add(g.last()));
            assert(p.flatten_alt() == p.drop_last().flatten_alt().add(p.last()));
            assert(g.last() == p.last().push(s.last()));
            assert(p.drop_last().flatten_alt().add(p.last().push(s.last())) =~= p.drop_last()
                .flatten_alt()
                .add(p.last())
                .push(s.last()));
            assert(g.flatten_alt() =~= s);
        } else {
            let g = grouping(s);
            assert(g == p.push(seq![s.last()]));
            assert(g.drop_last() =~= p);
            assert(g.flatten_alt() == p.flatten_alt().add(seq![s.last()]));
            assert(g.flatten_alt() =~= s);
        }
    }
}

/// Every group is a non-empty run of a single compatibility class: either
/// all of its elements are buttons, or it is a lone dropdown.
pub proof fn lemma_grouping_shape(s: Seq<ComponentView>)
    ensures
        forall|j: int|
            0 <= j < grouping(s).len() ==> #[trigger] grouping(s)[j].len() > 0,
        forall|j: int|
            0 <= j < grouping(s).len() && !is_button(#[trigger] grouping(s)[j][0]) ==> grouping(
                s,
            )[j].len() == 1,
        forall|j: int, k: int|
            0 <= j < grouping(s).len() && 0 <= k < grouping(s)[j].len() ==> is_button(
                #[trigger] grouping(s)[j][k],
            ) == is_button(grouping(s)[j][0]),
    decreases s.len(),
{
    if s.len() > 0 {
        let rest = s.drop_last();
        let p = grouping(rest);
        let g = grouping(s);
        lemma_grouping_shape(rest);
        lemma_grouping_len(rest);
        if s.len() >= 2 && is_button(s[s.len() - 2]) && is_button(s.last()) {
            lemma_grouping_complete(rest);
            assert(p.flatten_alt() == p.drop_last().flatten_alt().add(p.last()));
            assert(p.last().len() > 0);
            assert(p.last().last() == rest.last());
            assert(is_button(p.last()[0]));
            assert(g.last() == p.last().push(s.last()));
            assert(forall|j: int| 0 <= j < g.len() - 1 ==> g[j] == p[j]);
            assert(forall|j: int, k: int|
                0 <= j < g.len() && 0 <= k < g[j].len() ==> is_button(#[trigger] g[j][k])
                    == is_button(g[j][0]));
        } else {
            assert(g == p.push(seq![s.last()]));
            assert(g.last().len() == 1);
            assert(forall|j: int| 0 <= j < g.len() - 1 ==> g[j] == p[j]);
        }
    }
}

/// The runs are maximal: two neighbouring groups never both end and begin
/// with a button, so no two adjacent groups could have been merged.
pub proof fn lemma_grouping_maximal(s: Seq<ComponentView>)
    ensures
        forall|j: int|
            0 <= j < grouping(s).len() - 1 ==> !(is_button(
                #[trigger] grouping(s)[j].last(),
            ) && is_button(grouping(s)[j + 1][0])),
    decreases s.len(),
{
    if s.len() > 0 {
        let rest = s.drop_last();
        let p = grouping(rest);
        let g = grouping(s);
        lemma_grouping_maximal(rest);
        lemma_grouping_len(rest);
        lemma_grouping_shape(rest);
        if s.len() >= 2 && is_button(s[s.len() - 2]) && is_button(s.last()) {
            assert(forall|j: int| 0 <= j < g.len() - 1 ==> g[j] == p[j]);
            assert(g.last()[0] == p.last()[0]);
            assert(forall|j: int|
                0 <= j < g.len() - 1 ==> !(is_button(#[trigger] g[j].last()) && is_button(
                    g[j + 1][0],
                )));
        } else {
            assert(g == p.push(seq![s.last()]));
            assert(forall|j: int| 0 <= j < g.len() - 1 ==> g[j] == p[j]);
            if p.len() > 0 {
                lemma_grouping_complete(rest);
                assert(p.flatten_alt() == p.drop_last().flatten_alt().add(p.last()));
                assert(p.last().len() > 0);
                assert(p.last().last() == rest.last());
                assert(rest.last() == s[s.len() - 2]);
                assert(!(is_button(s[s.len() - 2]) && is_button(s.last())));
                assert(g[g.len() - 2] == p.last());
                assert(g.last()[0] == s.last());
            }
        }
    }
}

/// Splits a component list into its ordered rendering groups: maximal runs
/// of adjacent buttons, and one singleton group per dropdown.
pub fn group_components(components: &Vec<NotificationComponent>) -> (groups: Vec<
    Vec<NotificationComponent>,
>)
    ensures
        groups_view(groups@) == grouping(components_view(components@)),
{
    let ghost cv = components_view(components@);
    let mut groups: Vec<Vec<NotificationComponent>> = Vec::new();
    let mut prev_button = false;
    let mut i: usize = 0;
    proof {
        assert(cv.take(0) =~= Seq::<ComponentView>::empty());
        assert(groups_view(groups@) =~= grouping(cv.take(0)));
    }
    while i < components.len()
        invariant
            i <= components@.len(),
            cv == components_view(components@),
            groups_view(groups@) == grouping(cv.take(i as int)),
            prev_button == (i > 0 && is_button(cv[i as int - 1])),
            groups@.len() > 0 <==> i > 0,
        decreases components@.len() - i,
    {
        let c = components[i].clone();
        let b = c.is_button();
        let ghost t = cv.take(i as int + 1);
        proof {
            assert(t.drop_last() =~= cv.take(i as int));
            assert(t.last() == cv[i as int]);
            lemma_grouping_len(t.drop_last());
        }
        if b && prev_button {
            let mut last_group = match groups.pop() {
                Some(g) => g,
                None => Vec::new(),
            };
            last_group.push(c);
            groups.push(last_group);
            proof {
                let p = grouping(t.drop_last());
                assert(t.len() >= 2 && is_button(t[t.len() - 2]) && is_button(t.last()));
                assert(grouping(t) == p.update(p.len() - 1, p.last().push(t.last())));
                assert(components_view(last_group@) =~= p.last().push(cv[i as int]));
                assert(groups_view(groups@) =~= grouping(t));
            }
        } else {
            let mut fresh: Vec<NotificationComponent> = Vec::new();
            fresh.push(c);
            groups.push(fresh);
            proof {
                let p = grouping(t.drop_last());
                assert(!(t.len() >= 2 && is_button(t[t.len() - 2]) && is_button(t.last())));
                assert(grouping(t) == p.push(seq![t.last()]));
                assert(components_view(fresh@) =~= seq![t.last()]);
                assert(groups_view(groups@) =~= grouping(t));
            }
        }
        prev_button = b;
        i = i + 1;
    }
    proof {
        assert(cv.take(i as int) =~= cv);
    }
    groups
}

} // verus!
