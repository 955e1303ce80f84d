use vstd::prelude::*;
use vstd::string::*;
use crate::errors::AxialError;
use crate::scalar::Scalar;
use crate::source::{
    Field, Source, SourceModel, has_field, model_with, spec_field_name, spec_kind_word,
    spec_source_text,
};
use crate::text::str_eq;

verus! {

/// Whether an id is drawn from the fixed reserved-word set. Reserved words
/// name the source kinds and the wildcard and may never key an entry.
pub open spec fn reserved_word(id: Seq<char>) -> bool {
    ||| id == "*"@
    ||| id == "COIL"@
    ||| id == "LOOP"@
    ||| id == "ANNULAR"@
    ||| id == "SOLENOID"@
}

/// Whether some entry of the model carries the given id.
pub open spec fn contains_id(m: Seq<SourceModel>, id: Seq<char>) -> bool {
    exists|i: int| 0 <= i < m.len() && m[i].id == id
}

/// Well-formedness of a registry model: no two entries share an id, and no
/// entry's id is a reserved word.
pub open spec fn wf_model(m: Seq<SourceModel>) -> bool {
    &&& forall|i: int, j: int| 0 <= i < j < m.len() ==> m[i].id != m[j].id
    &&& forall|i: int| 0 <= i < m.len() ==> !reserved_word(m[i].id)
}

/// What an insert does: a reserved id is rejected outright, a present id is
/// rejected as a duplicate, and otherwise the source is appended at the end,
/// preserving insertion order. In the two failure cases the registry is
/// unchanged.
pub open spec fn insert_outcome(
    pre: Seq<SourceModel>,
    post: Seq<SourceModel>,
    s: SourceModel,
    r: Result<(), AxialError>,
) -> bool {
    if reserved_word(s.id) {
        &&& post == pre
        &&& (r matches Err(AxialError::ReservedWordError(w)) && w@ == s.id)
    } else if contains_id(pre, s.id) {
        &&& post == pre
        &&& (r matches Err(AxialError::KeyDuplicateError(w)) && w@ == s.id)
    } else {
        &&& post == pre.push(s)
        &&& r is Ok
    }
}

/// What a field modification does: a missing id is rejected, a field the
/// targeted kind lacks is rejected naming the field and the kind, and
/// otherwise exactly that entry's field is overwritten in place. In the two
/// failure cases the registry is unchanged.
pub open spec fn modify_outcome(
    pre: Seq<SourceModel>,
    post: Seq<SourceModel>,
    id: Seq<char>,
    f: Field,
    v: Scalar,
    r: Result<(), AxialError>,
) -> bool {
    if !contains_id(pre, id) {
        &&& post == pre
        &&& (r matches Err(AxialError::KeyMissingError(w)) && w@ == id)
    } else {
        exists|i: int|
            #![auto]
            {
                &&& 0 <= i < pre.len()
                &&& pre[i].id == id
                &&& if has_field(pre[i].geometry, f) {
                    &&& post == pre.update(i, model_with(pre[i], f, v))
                    &&& r is Ok
                } else {
                    &&& post == pre
                    &&& (r matches Err(AxialError::IncompatiblePrimitiveError(fname, kind))
                        && fname@ == spec_field_name(f) && kind@ == spec_kind_word(pre[i].geometry))
                }
            }
    }
}

/// The concatenation of every entry's summary in insertion order, one line
/// per entry.
pub open spec fn spec_lines(m: Seq<SourceModel>) -> Seq<char>
    decreases m.len(),
{
    if m.len() == 0 {
        Seq::empty()
    } else {
        spec_lines(m.drop_last()) + spec_source_text(m.last()) + "\n"@
    }
}

/// Tests an id against the reserved-word set.
pub fn is_reserved(id: &str) -> (r: bool)
    ensures
        r == reserved_word(id@),
{
    str_eq(id, "*") || str_eq(id, "COIL") || str_eq(id, "LOOP") || str_eq(id, "ANNULAR") || str_eq(
        id,
        "SOLENOID",
    )
}

/// An ordered, id-keyed collection of sources. Insertion order is kept for
/// deterministic enumeration; ids are unique and never reserved words.
#[derive(Debug)]
pub struct Registry {
    entries: Vec<Source>,
}

impl View for Registry {
    type V = Seq<SourceModel>;

    closed spec fn view(&self) -> Seq<SourceModel> {
        self.entries@.map_values(|s: Source| s@)
    }
}

impl Registry {
    /// Well-formedness of this registry.
    pub open spec fn wf(&self) -> bool {
        wf_model(self@)
    }

    /// Returns the empty registry.
    pub fn new() -> (r: Registry)
        ensures
            r@ == Seq::<SourceModel>::empty(),
            r.wf(),
    {
        let r = Registry { entries: Vec::new() };
        proof {
            assert(r@ =~= Seq::<SourceModel>::empty());
        }
        r
    }

    /// The number of entries.
    pub fn len(&self) -> (n: usize)
        ensures
            n == self@.len(),
    {
        self.entries.len()
    }

    /// The entry at an index, in insertion order.
    pub fn get(&self, i: usize) -> (s: &Source)
        requires
            i < self@.len(),
        ensures
            s@ == self@[i as int],
    {
        &self.entries[i]
    }

    /// The index of the entry carrying the id, if any.
    pub fn position_of(&self, id: &str) -> (r: Option<usize>)
        ensures
            match r {
                Some(i) => i < self@.len() && self@[i as int].id == id@,
                None => !contains_id(self@, id@),
            },
    {
        let n = self.entries.len();
        let mut j: usize = 0;
        while j < n
            invariant
                j <= n,
                n == self@.len(),
                forall|k: int| 0 <= k < j ==> self@[k].id != id@,
            decreases n - j,
        {
            if str_eq(self.entries[j].id.as_str(), id) {
                return Some(j);
            }
            j += 1;
        }
        None
    }

    /// Inserts a source at the end, rejecting reserved and duplicate ids.
    pub fn insert(&mut self, source: Source) -> (r: Result<(), AxialError>)
        requires
            old(self).wf(),
        ensures
            final(self).wf(),
            insert_outcome(old(self)@, final(self)@, source@, r),
    {
        if is_reserved(source.id.as_str()) {
            return Err(AxialError::ReservedWordError(source.id));
        }
        match self.position_of(source.id.as_str()) {
            Some(i) => {
                proof {
                    assert(contains_id(self@, source@.id));
                }
                Err(AxialError::KeyDuplicateError(source.id))
            },
            None => {
                let ghost pre = self@;
                let ghost m = source@;
                self.entries.push(source);
                proof {
                    assert(self@ =~= pre.push(m));
                    assert forall|i: int, j: int| 0 <= i < j < self@.len() implies self@[i].id
                        != self@[j].id by {
                        if j == pre.len() {
                            assert(self@[i] == pre[i]);
                            assert(!contains_id(pre, m.id));
                            assert(pre[i].id != m.id);
                        }
                    }
                }
                Ok(())
            },
        }
    }

    /// Overwrites one numeric field of the entry carrying the id.
    pub fn modify_field(&mut self, id: &str, f: Field, value: Scalar) -> (r: Result<(), AxialError>)
        requires
            old(self).wf(),
        ensures
            final(self).wf(),
            modify_outcome(old(self)@, final(self)@, id@, f, value, r),
    {
        match self.position_of(id) {
            None => Err(AxialError::KeyMissingError(String::from_str(id))),
            Some(i) => {
                proof {
                    assert(contains_id(self@, id@));
                }
                if !self.entries[i].carries(f) {
                    let fname = match f {
                        Field::Radius => String::from_str("radius"),
                        Field::Current => String::from_str("current"),
                        Field::Thickness => String::from_str("thickness"),
                        Field::Length => String::from_str("length"),
                        Field::Position => String::from_str("position"),
                    };
                    let kind = self.entries[i].kind_word();
                    Err(AxialError::IncompatiblePrimitiveError(fname, kind))
                } else {
                    let ghost pre = self@;
                    let e = vstd::std_specs::vec::vec_index_mut(&mut self.entries, i);
                    match f {
                        Field::Current => {
                            e.current = value;
                        },
                        Field::Position => {
                            e.position = value;
                        },
                        _ => {
                            let g2 = crate::source::geometry_updated(e.geometry, f, value);
                            e.geometry = g2;
                        },
                    }
                    proof {
                        assert(self@ =~= pre.update(i as int, model_with(pre[i as int], f, value)));
                        assert forall|p: int, q: int| 0 <= p < q < self@.len() implies self@[p].id
                            != self@[q].id by {
                            assert(self@[p].id == pre[p].id);
                            assert(self@[q].id == pre[q].id);
                        }
                        assert forall|p: int| 0 <= p < self@.len() implies !reserved_word(
                            self@[p].id,
                        ) by {
                            assert(self@[p].id == pre[p].id);
                        }
                    }
                    Ok(())
                }
            },
        }
    }

    /// Removes the entry carrying the id; the entries after it close the
    /// gap, keeping their relative order.
    pub fn remove(&mut self, id: &str) -> (r: Result<(), AxialError>)
        requires
            old(self).wf(),
        ensures
            final(self).wf(),
            match r {
                Ok(()) => exists|i: int|
                    #![auto]
                    0 <= i < old(self)@.len() && old(self)@[i].id == id@ && final(self)@ == old(
                        self,
                    )@.remove(i),
                Err(e) => !contains_id(old(self)@, id@) && final(self)@ == old(self)@ && (
                e matches AxialError::KeyMissingError(w) && w@ == id@),
            },
    {
        match self.position_of(id) {
            None => Err(AxialError::KeyMissingError(String::from_str(id))),
            Some(i) => {
                let ghost pre = self@;
                let _ = self.entries.remove(i);
                proof {
                    assert(self@ =~= pre.remove(i as int));
                    assert forall|p: int, q: int| 0 <= p < q < self@.len() implies self@[p].id
                        != self@[q].id by {
                        assert(self@[p] == if p < i { pre[p] } else { pre[p + 1] });
                        assert(self@[q] == if q < i { pre[q] } else { pre[q + 1] });
                    }
                    assert forall|p: int| 0 <= p < self@.len() implies !reserved_word(
                        self@[p].id,
                    ) by {
                        assert(self@[p] == if p < i { pre[p] } else { pre[p + 1] });
                    }
                }
                Ok(())
            },
        }
    }

    /// The entry carrying the id, or `KeyMissingError`.
    pub fn lookup(&self, id: &str) -> (r: Result<&Source, AxialError>)
        ensures
            match r {
                Ok(s) => contains_id(self@, id@) && exists|i: int|
                    #![auto]
                    0 <= i < self@.len() && self@[i].id == id@ && s@ == self@[i],
                Err(e) => !contains_id(self@, id@) && (e matches AxialError::KeyMissingError(w)
                    && w@ == id@),
            },
    {
        match self.position_of(id) {
            None => Err(AxialError::KeyMissingError(String::from_str(id))),
            Some(i) => {
                proof {
                    assert(contains_id(self@, id@));
                }
                Ok(&self.entries[i])
            },
        }
    }

    /// The textual summary of the entry carrying the id, or
    /// `KeyMissingError`.
    pub fn view_text(&self, id: &str) -> (r: Result<String, AxialError>)
        ensures
            match r {
                Ok(t) => contains_id(self@, id@) && exists|i: int|
                    #![auto]
                    0 <= i < self@.len() && self@[i].id == id@ && t@ == spec_source_text(self@[i]),
                Err(e) => !contains_id(self@, id@) && (e matches AxialError::KeyMissingError(w)
                    && w@ == id@),
            },
    {
        match self.lookup(id) {
            Err(e) => Err(e),
            Ok(s) => Ok(s.render()),
        }
    }

    /// Renders every entry in insertion order, one line per entry.
    pub fn render_all(&self) -> (r: String)
        ensures
            r@ == spec_lines(self@),
    {
        let mut s = String::new();
        let n = self.entries.len();
        let mut j: usize = 0;
        while j < n
            invariant
                j <= n,
                n == self@.len(),
                s@ == spec_lines(self@.take(j as int)),
            decreases n - j,
        {
            let line = self.entries[j].render();
            s.append(line.as_str());
            s.append("\n");
            proof {
                let t = self@.take(j as int + 1);
                assert(t.drop_last() =~= self@.take(j as int));
                assert(t.last() == self@[j as int]);
            }
            j += 1;
        }
        proof {
            assert(self@.take(n as int) =~= self@);
        }
        s
    }
}

/// Inserting with a reserved id fails with `ReservedWordError`, whatever the
/// source's kind and fields, and the registry is unchanged.
pub proof fn lemma_reserved_insert_rejected(
    pre: Seq<SourceModel>,
    post: Seq<SourceModel>,
    s: SourceModel,
    r: Result<(), AxialError>,
)
    requires
        reserved_word(s.id),
        insert_outcome(pre, post, s, r),
    ensures
        post == pre,
        r matches Err(AxialError::ReservedWordError(w)) && w@ == s.id,
{
}

/// Inserting the same id twice fails: the first insert of a fresh,
/// non-reserved id succeeds and appends, and any second insert under that id
/// fails with `KeyDuplicateError`, leaving the registry — the first source
/// included — unchanged.
pub proof fn lemma_duplicate_insert_rejected(
    pre: Seq<SourceModel>,
    mid: Seq<SourceModel>,
    post: Seq<SourceModel>,
    s: SourceModel,
    t: SourceModel,
    r1: Result<(), AxialError>,
    r2: Result<(), AxialError>,
)
    requires
        !reserved_word(s.id),
        !contains_id(pre, s.id),
        t.id == s.id,
        insert_outcome(pre, mid, s, r1),
        insert_outcome(mid, post, t, r2),
    ensures
        r1 is Ok,
        mid == pre.push(s),
        r2 matches Err(AxialError::KeyDuplicateError(w)) && w@ == t.id,
        post == mid,
        post[pre.len() as int] == s,
{
    assert(mid[pre.len() as int] == s);
    assert(contains_id(mid, t.id));
}

/// A well-formed registry never holds an entry under a reserved id.
pub proof fn lemma_reserved_never_present(m: Seq<SourceModel>, id: Seq<char>)
    requires
        wf_model(m),
        reserved_word(id),
    ensures
        !contains_id(m, id),
{
    if contains_id(m, id) {
        let i = choose|i: int| 0 <= i < m.len() && m[i].id == id;
        assert(!reserved_word(m[i].id));
    }
}

/// On a well-formed registry a modification that targets a reserved id —
/// which can never be present — fails with `KeyMissingError`, like any other
/// missing id.
pub proof fn lemma_modify_reserved_is_missing(
    pre: Seq<SourceModel>,
    post: Seq<SourceModel>,
    id: Seq<char>,
    f: Field,
    v: Scalar,
    r: Result<(), AxialError>,
)
    requires
        wf_model(pre),
        reserved_word(id),
        modify_outcome(pre, post, id, f, v, r),
    ensures
        post == pre,
        r matches Err(AxialError::KeyMissingError(w)) && w@ == id,
{
    lemma_reserved_never_present(pre, id);
}

/// The enumeration is complete: every entry's full summary line — which
/// presents that entry's id — stands in the rendered text.
pub proof fn lemma_lines_complete(m: Seq<SourceModel>, i: int)
    requires
        0 <= i < m.len(),
    ensures
        exists|a: Seq<char>, b: Seq<char>|
            spec_lines(m) == a + (spec_source_text(m[i]) + "\n"@) + b,
    decreases m.len(),
{
    if i == m.len() - 1 {
        let a = spec_lines(m.drop_last());
        let b = Seq::<char>::empty();
        assert(spec_lines(m) =~= a + (spec_source_text(m[i]) + "\n"@) + b);
    } else {
        lemma_lines_complete(m.drop_last(), i);
        let (a0, b0) = choose|a0: Seq<char>, b0: Seq<char>|
            spec_lines(m.drop_last()) == a0 + (spec_source_text(m.drop_last()[i]) + "\n"@) + b0;
        let b = b0 + spec_source_text(m.last()) + "\n"@;
        assert(m.drop_last()[i] == m[i]);
        assert(spec_lines(m) =~= a0 + (spec_source_text(m[i]) + "\n"@) + b);
    }
}

} // verus!
