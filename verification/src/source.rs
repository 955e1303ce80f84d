use vstd::prelude::*;
use vstd::string::*;
use crate::scalar::{Scalar, spec_scalar_hex, scalar_hex};

verus! {

/// The geometry of a current source: one of the four closed kinds, with the
/// fields that the kind carries. All lengths are scalars (binary64 bit
/// patterns) that the registry never interprets.
#[derive(Debug, Clone, Copy, PartialEq, Eq, Structural)]
pub enum Geometry {
    /// A single circular current loop.
    Loop { radius: Scalar },
    /// A radially thick ring: the loop integrated across `thickness`.
    Annular { radius: Scalar, thickness: Scalar },
    /// An axially extended shell: the loop integrated across `length`.
    ThinSolenoid { radius: Scalar, length: Scalar },
    /// A radially and axially thick coil.
    CoilSolenoid { radius: Scalar, thickness: Scalar, length: Scalar },
}

/// A numeric field that a modification can target.
#[derive(Debug, Clone, Copy, PartialEq, Eq, Structural)]
pub enum Field {
    Radius,
    Current,
    Thickness,
    Length,
    Position,
}

/// A current source: an id unique within its registry, a signed current, an
/// axial position of its reference plane, and its geometry.
#[derive(Debug)]
pub struct Source {
    pub id: String,
    pub current: Scalar,
    pub position: Scalar,
    pub geometry: Geometry,
}

/// The mathematical value of a source: the id as a character sequence
/// together with the plain fields.
pub ghost struct SourceModel {
    pub id: Seq<char>,
    pub current: Scalar,
    pub position: Scalar,
    pub geometry: Geometry,
}

impl View for Source {
    type V = SourceModel;

    open spec fn view(&self) -> SourceModel {
        SourceModel { id: self.id@, current: self.current, position: self.position, geometry: self.geometry }
    }
}

/// The kind word of a geometry, as used in reserved ids and in error texts.
pub open spec fn spec_kind_word(g: Geometry) -> Seq<char> {
    match g {
        Geometry::Loop { .. } => "LOOP"@,
        Geometry::Annular { .. } => "ANNULAR"@,
        Geometry::ThinSolenoid { .. } => "SOLENOID"@,
        Geometry::CoilSolenoid { .. } => "COIL"@,
    }
}

/// Whether a geometry kind carries the given field. Radius, current and
/// position exist on every kind; thickness and length only on the radially
/// respectively axially extended kinds.
pub open spec fn has_field(g: Geometry, f: Field) -> bool {
    match f {
        Field::Radius => true,
        Field::Current => true,
        Field::Position => true,
        Field::Thickness => g matches Geometry::Annular { .. } || g matches Geometry::CoilSolenoid { .. },
        Field::Length => g matches Geometry::ThinSolenoid { .. } || g matches Geometry::CoilSolenoid { .. },
    }
}

/// The geometry with the given field overwritten; unchanged if the kind
/// lacks the field. Current and position live on the source, not here.
pub open spec fn geometry_with(g: Geometry, f: Field, v: Scalar) -> Geometry {
    match f {
        Field::Radius => match g {
            Geometry::Loop { .. } => Geometry::Loop { radius: v },
            Geometry::Annular { thickness, .. } => Geometry::Annular { radius: v, thickness },
            Geometry::ThinSolenoid { length, .. } => Geometry::ThinSolenoid { radius: v, length },
            Geometry::CoilSolenoid { thickness, length, .. } => Geometry::CoilSolenoid {
                radius: v,
                thickness,
                length,
            },
        },
        Field::Thickness => match g {
            Geometry::Annular { radius, .. } => Geometry::Annular { radius, thickness: v },
            Geometry::CoilSolenoid { radius, length, .. } => Geometry::CoilSolenoid {
                radius,
                thickness: v,
                length,
            },
            _ => g,
        },
        Field::Length => match g {
            Geometry::ThinSolenoid { radius, .. } => Geometry::ThinSolenoid { radius, length: v },
            Geometry::CoilSolenoid { radius, thickness, .. } => Geometry::CoilSolenoid {
                radius,
                thickness,
                length: v,
            },
            _ => g,
        },
        Field::Current => g,
        Field::Position => g,
    }
}

/// The source model with the given field overwritten.
pub open spec fn model_with(s: SourceModel, f: Field, v: Scalar) -> SourceModel {
    match f {
        Field::Current => SourceModel { current: v, ..s },
        Field::Position => SourceModel { position: v, ..s },
        _ => SourceModel { geometry: geometry_with(s.geometry, f, v), ..s },
    }
}

/// The name of a field, as it appears in error texts.
pub open spec fn spec_field_name(f: Field) -> Seq<char> {
    match f {
        Field::Radius => "radius"@,
        Field::Current => "current"@,
        Field::Thickness => "thickness"@,
        Field::Length => "length"@,
        Field::Position => "position"@,
    }
}

/// The textual summary of a source: its kind label, its id, and every
/// numeric field in a fixed order per kind, each scalar as the hexadecimal
/// of its bit pattern.
pub open spec fn spec_source_text(s: SourceModel) -> Seq<char> {
    match s.geometry {
        Geometry::Loop { radius } => "Ideal Wire: id="@ + s.id + ",radius="@ + spec_scalar_hex(
            radius,
        ) + ",axial position="@ + spec_scalar_hex(s.position) + ",current="@ + spec_scalar_hex(
            s.current,
        ) + " "@,
        Geometry::Annular { radius, thickness } => "ThinAnnular: id="@ + s.id + ",radius="@
            + spec_scalar_hex(radius) + ",thickness="@ + spec_scalar_hex(thickness)
            + ",axial position="@ + spec_scalar_hex(s.position) + ",current="@ + spec_scalar_hex(
            s.current,
        ) + " "@,
        Geometry::ThinSolenoid { radius, length } => "ThinSolenoid: id="@ + s.id + ",radius="@
            + spec_scalar_hex(radius) + ",length="@ + spec_scalar_hex(length)
            + ",axial position="@ + spec_scalar_hex(s.position) + ",current="@ + spec_scalar_hex(
            s.current,
        ) + " "@,
        Geometry::CoilSolenoid { radius, thickness, length } => "CoilSolenoid: id="@ + s.id
            + ",radius="@ + spec_scalar_hex(radius) + ",length="@ + spec_scalar_hex(length)
            + ",thickness="@ + spec_scalar_hex(thickness) + ",axial position="@ + spec_scalar_hex(
            s.position,
        ) + ",current="@ + spec_scalar_hex(s.current) + " "@,
    }
}

/// The rendered summary presents the source's id: the text decomposes around
/// it, between the kind label and the numeric fields.
#[verifier::rlimit(60)]
pub proof fn lemma_id_shown(s: SourceModel)
    ensures
        exists|a: Seq<char>, b: Seq<char>| spec_source_text(s) == a + s.id + b,
{
    let t = spec_source_text(s);
    match s.geometry {
        Geometry::Loop { radius } => {
            let a = "Ideal Wire: id="@;
            let b = ",radius="@ + spec_scalar_hex(radius) + ",axial position="@ + spec_scalar_hex(
                s.position,
            ) + ",current="@ + spec_scalar_hex(s.current) + " "@;
            assert(t =~= a + s.id + b);
        },
        Geometry::Annular { radius, thickness } => {
            let a = "ThinAnnular: id="@;
            let b = ",radius="@ + spec_scalar_hex(radius) + ",thickness="@ + spec_scalar_hex(
                thickness,
            ) + ",axial position="@ + spec_scalar_hex(s.position) + ",current="@ + spec_scalar_hex(
                s.current,
            ) + " "@;
            assert(t =~= a + s.id + b);
        },
        Geometry::ThinSolenoid { radius, length } => {
            let a = "ThinSolenoid: id="@;
            let b = ",radius="@ + spec_scalar_hex(radius) + ",length="@ + spec_scalar_hex(length)
                + ",axial position="@ + spec_scalar_hex(s.position) + ",current="@
                + spec_scalar_hex(s.current) + " "@;
            assert(t =~= a + s.id + b);
        },
        Geometry::CoilSolenoid { radius, thickness, length } => {
            let a = "CoilSolenoid: id="@;
            let b = ",radius="@ + spec_scalar_hex(radius) + ",length="@ + spec_scalar_hex(length)
                + ",thickness="@ + spec_scalar_hex(thickness) + ",axial position="@
                + spec_scalar_hex(s.position) + ",current="@ + spec_scalar_hex(s.current) + " "@;
            assert(t =~= a + s.id + b);
        },
    }
}

/// Overwriting the thickness of a source whose kind carries one is
/// reflected in its rendered summary: the text decomposes around the
/// hexadecimal rendering of the new thickness value.
pub proof fn lemma_thickness_shown(s: SourceModel, v: Scalar)
    requires
        has_field(s.geometry, Field::Thickness),
    ensures
        exists|a: Seq<char>, b: Seq<char>|
            spec_source_text(model_with(s, Field::Thickness, v)) == a + spec_scalar_hex(v) + b,
{
    let t = spec_source_text(model_with(s, Field::Thickness, v));
    match s.geometry {
        Geometry::Annular { radius, .. } => {
            let a = "ThinAnnular: id="@ + s.id + ",radius="@ + spec_scalar_hex(radius)
                + ",thickness="@;
            let b = ",axial position="@ + spec_scalar_hex(s.position) + ",current="@
                + spec_scalar_hex(s.current) + " "@;
            assert(t =~= a + spec_scalar_hex(v) + b);
        },
        Geometry::CoilSolenoid { radius, length, .. } => {
            let a = "CoilSolenoid: id="@ + s.id + ",radius="@ + spec_scalar_hex(radius)
                + ",length="@ + spec_scalar_hex(length) + ",thickness="@;
            let b = ",axial position="@ + spec_scalar_hex(s.position) + ",current="@
                + spec_scalar_hex(s.current) + " "@;
            assert(t =~= a + spec_scalar_hex(v) + b);
        },
        _ => {
        },
    }
}

/// Computes the geometry with the given field overwritten.
pub fn geometry_updated(g: Geometry, f: Field, v: Scalar) -> (r: Geometry)
    ensures
        r == geometry_with(g, f, v),
{
    match f {
        Field::Radius => match g {
            Geometry::Loop { .. } => Geometry::Loop { radius: v },
            Geometry::Annular { thickness, .. } => Geometry::Annular { radius: v, thickness },
            Geometry::ThinSolenoid { length, .. } => Geometry::ThinSolenoid { radius: v, length },
            Geometry::CoilSolenoid { thickness, length, .. } => Geometry::CoilSolenoid {
                radius: v,
                thickness,
                length,
            },
        },
        Field::Thickness => match g {
            Geometry::Annular { radius, .. } => Geometry::Annular { radius, thickness: v },
            Geometry::CoilSolenoid { radius, length, .. } => Geometry::CoilSolenoid {
                radius,
                thickness: v,
                length,
            },
            _ => g,
        },
        Field::Length => match g {
            Geometry::ThinSolenoid { radius, .. } => Geometry::ThinSolenoid { radius, length: v },
            Geometry::CoilSolenoid { radius, thickness, .. } => Geometry::CoilSolenoid {
                radius,
                thickness,
                length: v,
            },
            _ => g,
        },
        Field::Current => g,
        Field::Position => g,
    }
}

impl Source {
    /// The kind word of this source.
    pub fn kind_word(&self) -> (r: String)
        ensures
            r@ == spec_kind_word(self.geometry),
    {
        match self.geometry {
            Geometry::Loop { .. } => String::from_str("LOOP"),
            Geometry::Annular { .. } => String::from_str("ANNULAR"),
            Geometry::ThinSolenoid { .. } => String::from_str("SOLENOID"),
            Geometry::CoilSolenoid { .. } => String::from_str("COIL"),
        }
    }

    /// Whether this source's kind carries the given field.
    pub fn carries(&self, f: Field) -> (r: bool)
        ensures
            r == has_field(self.geometry, f),
    {
        match f {
            Field::Radius => true,
            Field::Current => true,
            Field::Position => true,
            Field::Thickness => match self.geometry {
                Geometry::Annular { .. } => true,
                Geometry::CoilSolenoid { .. } => true,
                _ => false,
            },
            Field::Length => match self.geometry {
                Geometry::ThinSolenoid { .. } => true,
                Geometry::CoilSolenoid { .. } => true,
                _ => false,
            },
        }
    }

    /// Renders the summary of this source.
    pub fn render(&self) -> (r: String)
        ensures
            r@ == spec_source_text(self@),
    {
        match self.geometry {
            Geometry::Loop { radius } => String::from_str("Ideal Wire: id=").concat(
                self.id.as_str(),
            ).concat(",radius=").concat(scalar_hex(radius).as_str()).concat(
                ",axial position=",
            ).concat(scalar_hex(self.position).as_str()).concat(",current=").concat(
                scalar_hex(self.current).as_str(),
            ).concat(" "),
            Geometry::Annular { radius, thickness } => String::from_str(
                "ThinAnnular: id=",
            ).concat(self.id.as_str()).concat(",radius=").concat(
                scalar_hex(radius).as_str(),
            ).concat(",thickness=").concat(scalar_hex(thickness).as_str()).concat(
                ",axial position=",
            ).concat(scalar_hex(self.position).as_str()).concat(",current=").concat(
                scalar_hex(self.current).as_str(),
            ).concat(" "),
            Geometry::ThinSolenoid { radius, length } => String::from_str(
                "ThinSolenoid: id=",
            ).concat(self.id.as_str()).concat(",radius=").concat(
                scalar_hex(radius).as_str(),
            ).concat(",length=").concat(scalar_hex(length).as_str()).concat(
                ",axial position=",
            ).concat(scalar_hex(self.position).as_str()).concat(",current=").concat(
                scalar_hex(self.current).as_str(),
            ).concat(" "),
            Geometry::CoilSolenoid { radius, thickness, length } => String::from_str(
                "CoilSolenoid: id=",
            ).concat(self.id.as_str()).concat(",radius=").concat(
                scalar_hex(radius).as_str(),
            ).concat(",length=").concat(scalar_hex(length).as_str()).concat(
                ",thickness=",
            ).concat(scalar_hex(thickness).as_str()).concat(",axial position=").concat(
                scalar_hex(self.position).as_str(),
            ).concat(",current=").concat(scalar_hex(self.current).as_str()).concat(" "),
        }
    }
}

} // verus!
