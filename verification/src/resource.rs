//! The statistics of a resource: its lifetime and its attributes.
use crate::attribute::AttrValue;
use crate::attribute::Attribute;
use crate::attribute::AttributeUpdate;
use crate::time::Timestamp;
use vstd::prelude::*;

verus! {

/// The mutable statistics of a resource. No attribute name occurs twice in
/// `attributes`; a new name is appended behind the ones already there.
#[derive(Clone, Debug, PartialEq, Eq)]
pub struct ResourceStats {
    pub created_at: Option<Timestamp>,
    pub closed_at: Option<Timestamp>,
    pub attributes: Vec<Attribute>,
}

pub struct ResourceStatsView {
    pub created_at: Option<Timestamp>,
    pub closed_at: Option<Timestamp>,
    pub attributes: Seq<Attribute>,
}

impl View for ResourceStats {
    type V = ResourceStatsView;

    open spec fn view(&self) -> ResourceStatsView {
        ResourceStatsView {
            created_at: self.created_at,
            closed_at: self.closed_at,
            attributes: self.attributes@,
        }
    }
}

/// The position of the first attribute called `name` at or behind `from`.
pub open spec fn find_attribute(attrs: Seq<Attribute>, name: Seq<char>, from: int) -> Option<int>
    decreases attrs.len() - from,
{
    if from < 0 || from >= attrs.len() {
        None
    } else if attrs[from].name@ == name {
        Some(from)
    } else {
        find_attribute(attrs, name, from + 1)
    }
}

/// No attribute name occurs twice.
pub open spec fn distinct_names(attrs: Seq<Attribute>) -> bool {
    forall|i: int, j: int|
        0 <= i < j < attrs.len() ==> (#[trigger] attrs[i]).name@ != (#[trigger] attrs[j]).name@
}

/// Whether one update can be applied to the attributes.
pub open spec fn accepts_update(attrs: Seq<Attribute>, update: AttributeUpdate) -> bool {
    match find_attribute(attrs, update.name@, 0) {
        Some(i) => attrs[i].value.accepts(update.val),
        None => true,
    }
}

/// The attributes after one update: an attribute of that name is updated in
/// place, and a name not seen before is appended with the update's value.
pub open spec fn with_update(attrs: Seq<Attribute>, update: AttributeUpdate) -> Seq<Attribute> {
    match find_attribute(attrs, update.name@, 0) {
        Some(i) => attrs.update(
            i,
            Attribute { name: attrs[i].name, value: attrs[i].value.updated(update.val) },
        ),
        None => attrs.push(Attribute { name: update.name, value: update.val.initial() }),
    }
}

/// The attributes after the first `n` of `updates`, applied in order.
pub open spec fn with_updates(attrs: Seq<Attribute>, updates: Seq<AttributeUpdate>, n: int) -> Seq<
    Attribute,
>
    decreases n,
{
    if n <= 0 {
        attrs
    } else {
        with_update(with_updates(attrs, updates, n - 1), updates[n - 1])
    }
}

/// Whether all of `updates` can be applied in order, each to what the ones
/// before it left.
pub open spec fn accepts_updates(attrs: Seq<Attribute>, updates: Seq<AttributeUpdate>) -> bool {
    forall|n: int|
        0 <= n < updates.len() ==> accepts_update(
            #[trigger] with_updates(attrs, updates, n),
            updates[n],
        )
}

/// A search that finds nothing has seen every name differ; one that finds a
/// position has found the name there and nowhere before it.
pub proof fn lemma_find_attribute(attrs: Seq<Attribute>, name: Seq<char>, from: int)
    requires
        0 <= from,
    ensures
        match find_attribute(attrs, name, from) {
            Some(i) => from <= i < attrs.len() && attrs[i].name@ == name && forall|j: int|
                from <= j < i ==> (#[trigger] attrs[j]).name@ != name,
            None => forall|j: int| from <= j < attrs.len() ==> (#[trigger] attrs[j]).name@ != name,
        },
    decreases attrs.len() - from,
{
    if from < attrs.len() && attrs[from].name@ != name {
        lemma_find_attribute(attrs, name, from + 1);
    }
}

/// An update keeps attribute names distinct.
pub proof fn lemma_update_keeps_names_distinct(attrs: Seq<Attribute>, update: AttributeUpdate)
    requires
        distinct_names(attrs),
    ensures
        distinct_names(with_update(attrs, update)),
{
    lemma_find_attribute(attrs, update.name@, 0);
}

/// Any number of updates keeps attribute names distinct.
pub proof fn lemma_updates_keep_names_distinct(
    attrs: Seq<Attribute>,
    updates: Seq<AttributeUpdate>,
    n: int,
)
    requires
        distinct_names(attrs),
    ensures
        distinct_names(with_updates(attrs, updates, n)),
    decreases n,
{
    if n > 0 {
        lemma_updates_keep_names_distinct(attrs, updates, n - 1);
        lemma_update_keeps_names_distinct(with_updates(attrs, updates, n - 1), updates[n - 1]);
    }
}

/// A copy of a list of attributes.
pub fn copy_attributes(attrs: &Vec<Attribute>) -> (copies: Vec<Attribute>)
    ensures
        copies@ == attrs@,
{
    let mut copies: Vec<Attribute> = Vec::new();
    let mut i: usize = 0;
    while i < attrs.len()
        invariant
            i <= attrs.len(),
            copies@ == attrs@.take(i as int),
        decreases attrs.len() - i,
    {
        copies.push(Attribute { name: attrs[i].name.clone(), value: attrs[i].value.duplicate() });
        assert(attrs@.take(i + 1) =~= attrs@.take(i as int).push(attrs@[i as int]));
        i = i + 1;
    }
    assert(attrs@.take(i as int) =~= attrs@);
    copies
}

impl ResourceStatsView {
    /// The statistics of a resource that no event has described yet.
    pub open spec fn fresh() -> ResourceStatsView {
        ResourceStatsView { created_at: None, closed_at: None, attributes: Seq::empty() }
    }

    pub open spec fn wf(self) -> bool {
        distinct_names(self.attributes)
    }

    /// The statistics after the resource was closed at `at`. The first close
    /// is the one that counts: a time of closing that is set is kept.
    pub open spec fn closed(self, at: Timestamp) -> ResourceStatsView {
        ResourceStatsView {
            closed_at: if self.closed_at is None {
                Some(at)
            } else {
                self.closed_at
            },
            ..self
        }
    }

    pub open spec fn state_updated(self, updates: Seq<AttributeUpdate>) -> ResourceStatsView {
        ResourceStatsView {
            attributes: with_updates(self.attributes, updates, updates.len() as int),
            ..self
        }
    }
}

impl ResourceStats {
    /// Closes the resource at `at`, unless it has been closed before.
    pub fn close(&mut self, at: Timestamp)
        ensures
            final(self)@ == old(self)@.closed(at),
    {
        if self.closed_at.is_none() {
            self.closed_at = Some(at);
        }
    }

    /// The position of the attribute called `name`, if there is one.
    pub fn position(&self, name: &String) -> (found: Option<usize>)
        ensures
            match found {
                Some(i) => find_attribute(self@.attributes, name@, 0) == Some(i as int),
                None => find_attribute(self@.attributes, name@, 0) is None,
            },
    {
        let mut i: usize = 0;
        while i < self.attributes.len()
            invariant
                i <= self.attributes.len(),
                find_attribute(self@.attributes, name@, 0) == find_attribute(
                    self@.attributes,
                    name@,
                    i as int,
                ),
            decreases self.attributes.len() - i,
        {
            if self.attributes[i].name == *name {
                return Some(i);
            }
            i = i + 1;
        }
        None
    }

    /// The value of the attribute called `name`, if there is one.
    pub fn attribute(&self, name: &String) -> (value: Option<&AttrValue>)
        ensures
            match value {
                Some(v) => find_attribute(self@.attributes, name@, 0) matches Some(i)
                    && *v == self@.attributes[i].value,
                None => find_attribute(self@.attributes, name@, 0) is None,
            },
    {
        match self.position(name) {
            Some(i) => {
                proof {
                    lemma_find_attribute(self@.attributes, name@, 0);
                }
                Some(&self.attributes[i].value)
            },
            None => None,
        }
    }

    /// Whether one update can be applied, decided at run time.
    pub fn can_apply(&self, update: &AttributeUpdate) -> (ok: bool)
        ensures
            ok == accepts_update(self@.attributes, *update),
    {
        match self.position(&update.name) {
            Some(i) => {
                proof {
                    lemma_find_attribute(self@.attributes, update.name@, 0);
                }
                self.attributes[i].value.can_update(&update.val)
            },
            None => true,
        }
    }

    /// Whether a whole state update can be applied, decided at run time by
    /// applying it to a copy of the attributes.
    pub fn can_apply_all(&self, updates: &Vec<AttributeUpdate>) -> (ok: bool)
        ensures
            ok == accepts_updates(self@.attributes, updates@),
    {
        let mut scratch = ResourceStats {
            created_at: None,
            closed_at: None,
            attributes: copy_attributes(&self.attributes),
        };
        let mut n: usize = 0;
        while n < updates.len()
            invariant
                n <= updates.len(),
                scratch@.attributes == with_updates(self@.attributes, updates@, n as int),
                forall|m: int|
                    0 <= m < n ==> accepts_update(
                        #[trigger] with_updates(self@.attributes, updates@, m),
                        updates@[m],
                    ),
            decreases updates.len() - n,
        {
            if !scratch.can_apply(&updates[n]) {
                return false;
            }
            scratch.apply(&updates[n]);
            n = n + 1;
        }
        true
    }

    /// Applies one update.
    pub fn apply(&mut self, update: &AttributeUpdate)
        requires
            accepts_update(old(self)@.attributes, *update),
        ensures
            final(self)@.attributes == with_update(old(self)@.attributes, *update),
            final(self).created_at == old(self).created_at,
            final(self).closed_at == old(self).closed_at,
    {
        match self.position(&update.name) {
            Some(i) => {
                proof {
                    lemma_find_attribute(self@.attributes, update.name@, 0);
                }
                let ghost before = self@.attributes;
                self.attributes[i].value.update(&update.val);
                assert(self@.attributes =~= with_update(before, *update));
            },
            None => {
                self.attributes.push(
                    Attribute { name: update.name.clone(), value: AttrValue::from(update.val.duplicate()) },
                );
            },
        }
    }

    /// Applies the updates of one state update, in order.
    pub fn apply_all(&mut self, updates: &Vec<AttributeUpdate>)
        requires
            accepts_updates(old(self)@.attributes, updates@),
        ensures
            final(self)@ == old(self)@.state_updated(updates@),
    {
        let mut n: usize = 0;
        while n < updates.len()
            invariant
                n <= updates.len(),
                accepts_updates(old(self)@.attributes, updates@),
                self@.attributes == with_updates(old(self)@.attributes, updates@, n as int),
                self.created_at == old(self).created_at,
                self.closed_at == old(self).closed_at,
            decreases updates.len() - n,
        {
            self.apply(&updates[n]);
            n = n + 1;
        }
    }
}

impl Default for ResourceStats {
    fn default() -> (stats: ResourceStats)
        ensures
            stats@ == ResourceStatsView::fresh(),
    {
        ResourceStats { created_at: None, closed_at: None, attributes: Vec::new() }
    }
}

} // verus!
