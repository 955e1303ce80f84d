use vstd::prelude::*;
use crate::errors::AxialError;
use crate::orientation::Axis;
use crate::registry::{
    Registry, contains_id, insert_outcome, modify_outcome, spec_lines, wf_model,
};
use crate::scalar::Scalar;
use crate::source::{Field, Geometry, Source, SourceModel, spec_source_text};

verus! {

/// The mathematical value of a system: the registry contents in insertion
/// order, and the current alignment of the symmetry axis.
pub ghost struct SystemModel {
    pub sources: Seq<SourceModel>,
    pub orientation: Axis,
}

/// An axially-symmetric assembly of current sources: an id-keyed registry of
/// sources together with the lab-frame axis the symmetry axis is aligned
/// with. Created empty, aligned with the z axis.
#[derive(Debug)]
pub struct AxialSystem {
    registry: Registry,
    orientation: Axis,
}

impl AxialSystem {
    /// The mathematical value of this system.
    pub closed spec fn model(&self) -> SystemModel {
        SystemModel { sources: self.registry@, orientation: self.orientation }
    }

    /// Well-formedness: the registry's id invariants hold.
    pub open spec fn wf(&self) -> bool {
        wf_model(self.model().sources)
    }

    /// Returns the empty system, aligned with the z axis.
    pub fn new() -> (s: AxialSystem)
        ensures
            s.model().sources.len() == 0,
            s.model().orientation == Axis::Z,
            s.wf(),
    {
        AxialSystem { registry: Registry::new(), orientation: Axis::Z }
    }

    /// Aligns the symmetry axis with the lab x axis. Setting an alignment
    /// replaces the previous one; the sources are untouched.
    pub fn transform_x(&mut self)
        ensures
            final(self).model().orientation == Axis::X,
            final(self).model().sources == old(self).model().sources,
            final(self).wf() == old(self).wf(),
    {
        self.orientation = Axis::X;
    }

    /// Aligns the symmetry axis with the lab y axis.
    pub fn transform_y(&mut self)
        ensures
            final(self).model().orientation == Axis::Y,
            final(self).model().sources == old(self).model().sources,
            final(self).wf() == old(self).wf(),
    {
        self.orientation = Axis::Y;
    }

    /// Aligns the symmetry axis with the lab z axis.
    pub fn transform_z(&mut self)
        ensures
            final(self).model().orientation == Axis::Z,
            final(self).model().sources == old(self).model().sources,
            final(self).wf() == old(self).wf(),
    {
        self.orientation = Axis::Z;
    }

    /// The current alignment.
    pub fn orientation(&self) -> (a: Axis)
        ensures
            a == self.model().orientation,
    {
        self.orientation
    }

    /// The number of registered sources.
    pub fn source_count(&self) -> (n: usize)
        ensures
            n == self.model().sources.len(),
    {
        self.registry.len()
    }

    /// The source at an index, in insertion order.
    pub fn source_at(&self, i: usize) -> (s: &Source)
        requires
            i < self.model().sources.len(),
        ensures
            s@ == self.model().sources[i as int],
    {
        self.registry.get(i)
    }

    /// Adds a single current loop under the id.
    pub fn add_loop(&mut self, id: String, radius: Scalar, position: Scalar, current: Scalar) -> (r:
        Result<(), AxialError>)
        requires
            old(self).wf(),
        ensures
            final(self).wf(),
            final(self).model().orientation == old(self).model().orientation,
            insert_outcome(
                old(self).model().sources,
                final(self).model().sources,
                (SourceModel { id: id@, current, position, geometry: (Geometry::Loop { radius }) }),
                r,
            ),
    {
        self.registry.insert(Source { id, current, position, geometry: Geometry::Loop { radius } })
    }

    /// Adds a radially thick annular ring under the id.
    pub fn add_annular(
        &mut self,
        id: String,
        radius: Scalar,
        thickness: Scalar,
        position: Scalar,
        current: Scalar,
    ) -> (r: Result<(), AxialError>)
        requires
            old(self).wf(),
        ensures
            final(self).wf(),
            final(self).model().orientation == old(self).model().orientation,
            insert_outcome(
                old(self).model().sources,
                final(self).model().sources,
                (SourceModel {
                    id: id@,
                    current,
                    position,
                    geometry: (Geometry::Annular { radius, thickness }),
                }),
                r,
            ),
    {
        self.registry.insert(
            Source { id, current, position, geometry: Geometry::Annular { radius, thickness } },
        )
    }

    /// Adds an axially extended thin solenoid under the id.
    pub fn add_solenoid(
        &mut self,
        id: String,
        radius: Scalar,
        length: Scalar,
        position: Scalar,
        current: Scalar,
    ) -> (r: Result<(), AxialError>)
        requires
            old(self).wf(),
        ensures
            final(self).wf(),
            final(self).model().orientation == old(self).model().orientation,
            insert_outcome(
                old(self).model().sources,
                final(self).model().sources,
                (SourceModel {
                    id: id@,
                    current,
                    position,
                    geometry: (Geometry::ThinSolenoid { radius, length }),
                }),
                r,
            ),
    {
        self.registry.insert(
            Source { id, current, position, geometry: Geometry::ThinSolenoid { radius, length } },
        )
    }

    /// Adds a radially and axially thick coil solenoid under the id.
    pub fn add_coil(
        &mut self,
        id: String,
        radius: Scalar,
        thickness: Scalar,
        length: Scalar,
        position: Scalar,
        current: Scalar,
    ) -> (r: Result<(), AxialError>)
        requires
            old(self).wf(),
        ensures
            final(self).wf(),
            final(self).model().orientation == old(self).model().orientation,
            insert_outcome(
                old(self).model().sources,
                final(self).model().sources,
                (SourceModel {
                    id: id@,
                    current,
                    position,
                    geometry: (Geometry::CoilSolenoid { radius, thickness, length }),
                }),
                r,
            ),
    {
        self.registry.insert(
            Source {
                id,
                current,
                position,
                geometry: Geometry::CoilSolenoid { radius, thickness, length },
            },
        )
    }

    /// Overwrites the radius of the source carrying the id.
    pub fn modify_radius(&mut self, id: &str, value: Scalar) -> (r: Result<(), AxialError>)
        requires
            old(self).wf(),
        ensures
            final(self).wf(),
            final(self).model().orientation == old(self).model().orientation,
            modify_outcome(
                old(self).model().sources,
                final(self).model().sources,
                id@,
                Field::Radius,
                value,
                r,
            ),
    {
        self.registry.modify_field(id, Field::Radius, value)
    }

    /// Overwrites the current of the source carrying the id.
    pub fn modify_current(&mut self, id: &str, value: Scalar) -> (r: Result<(), AxialError>)
        requires
            old(self).wf(),
        ensures
            final(self).wf(),
            final(self).model().orientation == old(self).model().orientation,
            modify_outcome(
                old(self).model().sources,
                final(self).model().sources,
                id@,
                Field::Current,
                value,
                r,
            ),
    {
        self.registry.modify_field(id, Field::Current, value)
    }

    /// Overwrites the thickness of the source carrying the id; fails with
    /// `IncompatiblePrimitiveError` on a kind without a thickness.
    pub fn modify_thickness(&mut self, id: &str, value: Scalar) -> (r: Result<(), AxialError>)
        requires
            old(self).wf(),
        ensures
            final(self).wf(),
            final(self).model().orientation == old(self).model().orientation,
            modify_outcome(
                old(self).model().sources,
                final(self).model().sources,
                id@,
                Field::Thickness,
                value,
                r,
            ),
    {
        self.registry.modify_field(id, Field::Thickness, value)
    }

    /// Overwrites the length of the source carrying the id; fails with
    /// `IncompatiblePrimitiveError` on a kind without a length.
    pub fn modify_length(&mut self, id: &str, value: Scalar) -> (r: Result<(), AxialError>)
        requires
            old(self).wf(),
        ensures
            final(self).wf(),
            final(self).model().orientation == old(self).model().orientation,
            modify_outcome(
                old(self).model().sources,
                final(self).model().sources,
                id@,
                Field::Length,
                value,
                r,
            ),
    {
        self.registry.modify_field(id, Field::Length, value)
    }

    /// Overwrites the axial position of the source carrying the id.
    pub fn modify_position(&mut self, id: &str, value: Scalar) -> (r: Result<(), AxialError>)
        requires
            old(self).wf(),
        ensures
            final(self).wf(),
            final(self).model().orientation == old(self).model().orientation,
            modify_outcome(
                old(self).model().sources,
                final(self).model().sources,
                id@,
                Field::Position,
                value,
                r,
            ),
    {
        self.registry.modify_field(id, Field::Position, value)
    }

    /// Removes the source carrying the id; later sources keep their
    /// relative order.
    pub fn remove(&mut self, id: &str) -> (r: Result<(), AxialError>)
        requires
            old(self).wf(),
        ensures
            final(self).wf(),
            final(self).model().orientation == old(self).model().orientation,
            match r {
                Ok(()) => exists|i: int|
                    #![auto]
                    0 <= i < old(self).model().sources.len() && old(self).model().sources[i].id
                        == id@ && final(self).model().sources
                        == old(self).model().sources.remove(i),
                Err(e) => !contains_id(old(self).model().sources, id@)
                    && final(self).model().sources == old(self).model().sources && (
                e matches AxialError::KeyMissingError(w) && w@ == id@),
            },
    {
        self.registry.remove(id)
    }

    /// The source carrying the id, or `KeyMissingError`.
    pub fn lookup(&self, id: &str) -> (r: Result<&Source, AxialError>)
        ensures
            match r {
                Ok(s) => contains_id(self.model().sources, id@) && exists|i: int|
                    #![auto]
                    0 <= i < self.model().sources.len() && self.model().sources[i].id == id@ && s@
                        == self.model().sources[i],
                Err(e) => !contains_id(self.model().sources, id@) && (e matches AxialError::KeyMissingError(
                    w,
                ) && w@ == id@),
            },
    {
        self.registry.lookup(id)
    }

    /// The textual summary of the source carrying the id, or
    /// `KeyMissingError`.
    pub fn view(&self, id: &str) -> (r: Result<String, AxialError>)
        ensures
            match r {
                Ok(t) => contains_id(self.model().sources, id@) && exists|i: int|
                    #![auto]
                    0 <= i < self.model().sources.len() && self.model().sources[i].id == id@ && t@
                        == spec_source_text(self.model().sources[i]),
                Err(e) => !contains_id(self.model().sources, id@) && (e matches AxialError::KeyMissingError(
                    w,
                ) && w@ == id@),
            },
    {
        self.registry.view_text(id)
    }

    /// Renders every source in insertion order, one line per source.
    pub fn describe_system(&self) -> (r: String)
        ensures
            r@ == spec_lines(self.model().sources),
    {
        self.registry.render_all()
    }
}

impl Default for AxialSystem {
    /// The empty system, aligned with the z axis.
    fn default() -> (s: AxialSystem)
        ensures
            s.model().sources.len() == 0,
            s.model().orientation == Axis::Z,
            s.wf(),
    {
        AxialSystem::new()
    }
}

} // verus!
