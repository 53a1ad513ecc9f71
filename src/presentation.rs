use vstd::prelude::*;

verus! {

/// The kind of observable a meaning packet describes.
#[derive(Debug, Clone, Copy, PartialEq, Eq, Structural)]
pub enum OperatorType {
    PauliX,
    PauliY,
    PauliZ,
    Hadamard,
    Identity,
    Hamiltonian,
    Custom,
}

/// The measurement basis of a frame.
#[derive(Debug, Clone, Copy, PartialEq, Eq, Structural)]
pub enum BasisType {
    ComputationalBasis,
    PauliXBasis,
    PauliYBasis,
    PauliZBasis,
    BellBasis,
    CustomBasis,
}

/// What a visualization shows.
#[derive(Debug, Clone, Copy, PartialEq, Eq, Structural)]
pub enum VisualizationType {
    BlochSphere,
    StateHistogram,
    EntanglementGraph,
    TimeSeries,
    Combined,
}

/// The encoding of a rendered visualization.
#[derive(Debug, Clone, Copy, PartialEq, Eq, Structural)]
pub enum RenderFormat {
    Svg,
    Png,
    Json,
    Ascii,
}

/// A rendered visualization.
#[derive(Debug, Clone)]
pub struct RenderOutput {
    pub format: RenderFormat,
    pub data: Vec<u8>,
    pub width: Option<u32>,
    pub height: Option<u32>,
}

impl RenderOutput {
    /// Text output, without dimensions.
    pub fn ascii(data: Vec<u8>) -> (r: Self)
        ensures
            r.format == RenderFormat::Ascii,
            r.data@ == data@,
            r.width.is_none(),
            r.height.is_none(),
    {
        RenderOutput { format: RenderFormat::Ascii, data, width: None, height: None }
    }
}

/// Renders visualizations as plain text.
#[derive(Debug, Clone, Copy)]
pub struct AsciiRenderer;

} // verus!
