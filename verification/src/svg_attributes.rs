//! An enum of the SVG attribute keys.

use vstd::prelude::*;
use crate::text::{spec_bool, bool_to_string, spec_idec, i64_to_string};
use crate::NumberOrString;
use crate::global::AriaRole;

verus! {

/// An enum representing the different options for the `cross-origin` attribute.
///
/// <https://developer.mozilla.org/en-US/docs/Web/HTML/Attributes/crossorigin>
#[derive(Debug, Clone, Eq, PartialEq)]
pub enum CrossOrigin {
    Anonymous,
    UseCredentials,
    Blank,
}

impl CrossOrigin {
    /// The serialized form of the option.
    pub open spec fn spec_str(&self) -> Seq<char> {
        match self {
            CrossOrigin::Anonymous => "anonymous"@,
            CrossOrigin::UseCredentials => "use-credentials"@,
            CrossOrigin::Blank => ""@,
        }
    }

    /// The serialized form of the option.
    pub fn as_str(&self) -> (r: &str)
        ensures
            r@ == self.spec_str(),
    {
        match self {
            CrossOrigin::Anonymous => "anonymous",
            CrossOrigin::UseCredentials => "use-credentials",
            CrossOrigin::Blank => "",
        }
    }
}

/// An enum representing the different options for the `accumulate` attribute.
///
/// <https://developer.mozilla.org/en-US/docs/Web/SVG/Attribute/accumulate>
#[derive(Debug, Clone, Eq, PartialEq)]
pub enum Accumulate {
    NoneValue,
    Sum,
}

impl Accumulate {
    /// The serialized form of the option.
    pub open spec fn spec_str(&self) -> Seq<char> {
        match self {
            Accumulate::NoneValue => "none"@,
            Accumulate::Sum => "sum"@,
        }
    }

    /// The serialized form of the option.
    pub fn as_str(&self) -> (r: &str)
        ensures
            r@ == self.spec_str(),
    {
        match self {
            Accumulate::NoneValue => "none",
            Accumulate::Sum => "sum",
        }
    }
}

/// An enum representing the different options for the `additive` attribute.
///
/// <https://developer.mozilla.org/en-US/docs/Web/SVG/Attribute/additive>
#[derive(Debug, Clone, Eq, PartialEq)]
pub enum Additive {
    Replace,
    Sum,
}

impl Additive {
    /// The serialized form of the option.
    pub open spec fn spec_str(&self) -> Seq<char> {
        match self {
            Additive::Replace => "replace"@,
            Additive::Sum => "sum"@,
        }
    }

    /// The serialized form of the option.
    pub fn as_str(&self) -> (r: &str)
        ensures
            r@ == self.spec_str(),
    {
        match self {
            Additive::Replace => "replace",
            Additive::Sum => "sum",
        }
    }
}

/// An enum representing the different options for the `alignment-baseline` attribute.
///
/// <https://developer.mozilla.org/en-US/docs/Web/SVG/Attribute/alignment-baseline>
#[derive(Debug, Clone, Eq, PartialEq)]
pub enum AlignmentBaseline {
    Auto,
    Baseline,
    BeforeEdge,
    TextBeforeEdge,
    Middle,
    Central,
    AfterEdge,
    TextAfterEdge,
    Ideographic,
    Alphabetic,
    Hanging,
    Mathematical,
    Inherit,
}

impl AlignmentBaseline {
    /// The serialized form of the option.
    pub open spec fn spec_str(&self) -> Seq<char> {
        match self {
            AlignmentBaseline::Auto => "auto"@,
            AlignmentBaseline::Baseline => "baseline"@,
            AlignmentBaseline::BeforeEdge => "before-edge"@,
            AlignmentBaseline::TextBeforeEdge => "text-before-edge"@,
            AlignmentBaseline::Middle => "middle"@,
            AlignmentBaseline::Central => "central"@,
            AlignmentBaseline::AfterEdge => "after-edge"@,
            AlignmentBaseline::TextAfterEdge => "text-after-edge"@,
            AlignmentBaseline::Ideographic => "ideographic"@,
            AlignmentBaseline::Alphabetic => "alphabetic"@,
            AlignmentBaseline::Hanging => "hanging"@,
            AlignmentBaseline::Mathematical => "mathematical"@,
            AlignmentBaseline::Inherit => "inherit"@,
        }
    }

    /// The serialized form of the option.
    pub fn as_str(&self) -> (r: &str)
        ensures
            r@ == self.spec_str(),
    {
        match self {
            AlignmentBaseline::Auto => "auto",
            AlignmentBaseline::Baseline => "baseline",
            AlignmentBaseline::BeforeEdge => "before-edge",
            AlignmentBaseline::TextBeforeEdge => "text-before-edge",
            AlignmentBaseline::Middle => "middle",
            AlignmentBaseline::Central => "central",
            AlignmentBaseline::AfterEdge => "after-edge",
            AlignmentBaseline::TextAfterEdge => "text-after-edge",
            AlignmentBaseline::Ideographic => "ideographic",
            AlignmentBaseline::Alphabetic => "alphabetic",
            AlignmentBaseline::Hanging => "hanging",
            AlignmentBaseline::Mathematical => "mathematical",
            AlignmentBaseline::Inherit => "inherit",
        }
    }
}

/// An enum representing the different options for the `allow-reorder` attribute.
///
/// <https://developer.mozilla.org/en-US/docs/Web/SVG/Attribute/allow-reorder>
#[derive(Debug, Clone, Eq, PartialEq)]
pub enum AllowReorder {
    No,
    Yes,
}

impl AllowReorder {
    /// The serialized form of the option.
    pub open spec fn spec_str(&self) -> Seq<char> {
        match self {
            AllowReorder::No => "no"@,
            AllowReorder::Yes => "yes"@,
        }
    }

    /// The serialized form of the option.
    pub fn as_str(&self) -> (r: &str)
        ensures
            r@ == self.spec_str(),
    {
        match self {
            AllowReorder::No => "no",
            AllowReorder::Yes => "yes",
        }
    }
}

/// An enum representing the different options for the `arabic-form` attribute.
///
/// <https://developer.mozilla.org/en-US/docs/Web/SVG/Attribute/arabic-form>
#[derive(Debug, Clone, Eq, PartialEq)]
pub enum ArabicForm {
    Initial,
    Medial,
    Terminal,
    Isolated,
}

impl ArabicForm {
    /// The serialized form of the option.
    pub open spec fn spec_str(&self) -> Seq<char> {
        match self {
            ArabicForm::Initial => "initial"@,
            ArabicForm::Medial => "medial"@,
            ArabicForm::Terminal => "terminal"@,
            ArabicForm::Isolated => "isolated"@,
        }
    }

    /// The serialized form of the option.
    pub fn as_str(&self) -> (r: &str)
        ensures
            r@ == self.spec_str(),
    {
        match self {
            ArabicForm::Initial => "initial",
            ArabicForm::Medial => "medial",
            ArabicForm::Terminal => "terminal",
            ArabicForm::Isolated => "isolated",
        }
    }
}

/// An enum representing the different options for the `clip-rule` attribute.
///
/// <https://developer.mozilla.org/en-US/docs/Web/SVG/Attribute/clip-rule>
#[derive(Debug, Clone, Eq, PartialEq)]
pub enum ClipRule {
    Nonzero,
    Evenodd,
    Inherit,
}

impl ClipRule {
    /// The serialized form of the option.
    pub open spec fn spec_str(&self) -> Seq<char> {
        match self {
            ClipRule::Nonzero => "nonzero"@,
            ClipRule::Evenodd => "evenodd"@,
            ClipRule::Inherit => "inherit"@,
        }
    }

    /// The serialized form of the option.
    pub fn as_str(&self) -> (r: &str)
        ensures
            r@ == self.spec_str(),
    {
        match self {
            ClipRule::Nonzero => "nonzero",
            ClipRule::Evenodd => "evenodd",
            ClipRule::Inherit => "inherit",
        }
    }
}

/// An enum representing the different options for the `clipPathUnits` attribute.
///
/// <https://developer.mozilla.org/en-US/docs/Web/SVG/Attribute/clipPathUnits>
#[derive(Debug, Clone, Eq, PartialEq)]
pub enum ClipPathUnits {
    UserSpaceOnUse,
    ObjectBoundingBox,
}

impl ClipPathUnits {
    /// The serialized form of the option.
    pub open spec fn spec_str(&self) -> Seq<char> {
        match self {
            ClipPathUnits::UserSpaceOnUse => "userSpaceOnUse"@,
            ClipPathUnits::ObjectBoundingBox => "objectBoundingBox"@,
        }
    }

    /// The serialized form of the option.
    pub fn as_str(&self) -> (r: &str)
        ensures
            r@ == self.spec_str(),
    {
        match self {
            ClipPathUnits::UserSpaceOnUse => "userSpaceOnUse",
            ClipPathUnits::ObjectBoundingBox => "objectBoundingBox",
        }
    }
}

/// An enum representing the different options for the `color-interpolation-filters` attribute.
///
/// <https://developer.mozilla.org/en-US/docs/Web/SVG/Attribute/color-interpolation-filters>
#[derive(Debug, Clone, Eq, PartialEq)]
pub enum ColorInterpolationFilters {
    Auto,
    SRGB,
    LinearRGB,
    Inherit,
}

impl ColorInterpolationFilters {
    /// The serialized form of the option.
    pub open spec fn spec_str(&self) -> Seq<char> {
        match self {
            ColorInterpolationFilters::Auto => "auto"@,
            ColorInterpolationFilters::SRGB => "sRGB"@,
            ColorInterpolationFilters::LinearRGB => "linearRGB"@,
            ColorInterpolationFilters::Inherit => "inherit"@,
        }
    }

    /// The serialized form of the option.
    pub fn as_str(&self) -> (r: &str)
        ensures
            r@ == self.spec_str(),
    {
        match self {
            ColorInterpolationFilters::Auto => "auto",
            ColorInterpolationFilters::SRGB => "sRGB",
            ColorInterpolationFilters::LinearRGB => "linearRGB",
            ColorInterpolationFilters::Inherit => "inherit",
        }
    }
}

/// An enum representing the different options for the `fill-rule` attribute.
///
/// <https://developer.mozilla.org/en-US/docs/Web/SVG/Attribute/fill-rule>
#[derive(Debug, Clone, Eq, PartialEq)]
pub enum FillRule {
    Nonzero,
    Evenodd,
    Inherit,
}

impl FillRule {
    /// The serialized form of the option.
    pub open spec fn spec_str(&self) -> Seq<char> {
        match self {
            FillRule::Nonzero => "nonzero"@,
            FillRule::Evenodd => "evenodd"@,
            FillRule::Inherit => "inherit"@,
        }
    }

    /// The serialized form of the option.
    pub fn as_str(&self) -> (r: &str)
        ensures
            r@ == self.spec_str(),
    {
        match self {
            FillRule::Nonzero => "nonzero",
            FillRule::Evenodd => "evenodd",
            FillRule::Inherit => "inherit",
        }
    }
}

/// An enum representing the different options for the `focusable` attribute.
///
/// <https://developer.mozilla.org/en-US/docs/Web/SVG/Attribute/focusable>
#[derive(Debug, Clone, Eq, PartialEq)]
pub enum Focusable {
    True,
    False,
    Auto,
}

impl Focusable {
    /// The serialized form of the option.
    pub open spec fn spec_str(&self) -> Seq<char> {
        match self {
            Focusable::True => "true"@,
            Focusable::False => "false"@,
            Focusable::Auto => "auto"@,
        }
    }

    /// The serialized form of the option.
    pub fn as_str(&self) -> (r: &str)
        ensures
            r@ == self.spec_str(),
    {
        match self {
            Focusable::True => "true",
            Focusable::False => "false",
            Focusable::Auto => "auto",
        }
    }
}

/// An enum representing the different options for the `stroke-linecap` attribute.
///
/// <https://developer.mozilla.org/en-US/docs/Web/SVG/Attribute/stroke-linecap>
#[derive(Debug, Clone, Eq, PartialEq)]
pub enum StrokeLinecap {
    Butt,
    Round,
    Square,
    Inherit,
}

impl StrokeLinecap {
    /// The serialized form of the option.
    pub open spec fn spec_str(&self) -> Seq<char> {
        match self {
            StrokeLinecap::Butt => "butt"@,
            StrokeLinecap::Round => "round"@,
            StrokeLinecap::Square => "square"@,
            StrokeLinecap::Inherit => "inherit"@,
        }
    }

    /// The serialized form of the option.
    pub fn as_str(&self) -> (r: &str)
        ensures
            r@ == self.spec_str(),
    {
        match self {
            StrokeLinecap::Butt => "butt",
            StrokeLinecap::Round => "round",
            StrokeLinecap::Square => "square",
            StrokeLinecap::Inherit => "inherit",
        }
    }
}

/// An enum representing the different options for the `stroke-linejoin` attribute.
///
/// <https://developer.mozilla.org/en-US/docs/Web/SVG/Attribute/stroke-linejoin>
#[derive(Debug, Clone, Eq, PartialEq)]
pub enum StrokeLinejoin {
    Miter,
    Round,
    Bevel,
    Inherit,
}

impl StrokeLinejoin {
    /// The serialized form of the option.
    pub open spec fn spec_str(&self) -> Seq<char> {
        match self {
            StrokeLinejoin::Miter => "miter"@,
            StrokeLinejoin::Round => "round"@,
            StrokeLinejoin::Bevel => "bevel"@,
            StrokeLinejoin::Inherit => "inherit"@,
        }
    }

    /// The serialized form of the option.
    pub fn as_str(&self) -> (r: &str)
        ensures
            r@ == self.spec_str(),
    {
        match self {
            StrokeLinejoin::Miter => "miter",
            StrokeLinejoin::Round => "round",
            StrokeLinejoin::Bevel => "bevel",
            StrokeLinejoin::Inherit => "inherit",
        }
    }
}

/// An enum defining the different attribute keys for SVG elements. Each variant takes a tuple
/// that represents the valid values for the attributes.
#[derive(Debug, Clone)]
pub enum SVGAttributes<'a> {
    Color(&'a str),
    Height(crate::NumberOrString),
    Id(&'a str),
    Lang(&'a str),
    Max(crate::NumberOrString),
    Media(&'a str),
    Method(&'a str),
    Min(crate::NumberOrString),
    Name(&'a str),
    Target(&'a str),
    Type(&'a str),
    Width(crate::NumberOrString),
    Role(&'a AriaRole),
    TabIndex(i64),
    CrossOrigin(&'a CrossOrigin),
    AccentHeight(crate::NumberOrString),
    Accumulate(&'a Accumulate),
    Additive(&'a Additive),
    AlignmentBaseline(&'a AlignmentBaseline),
    AllowReorder(&'a AllowReorder),
    Alphabetic(crate::NumberOrString),
    Amplitude(crate::NumberOrString),
    ArabicForm(&'a ArabicForm),
    Ascent(crate::NumberOrString),
    AttributeName(&'a str),
    AttributeType(&'a str),
    AutoReverse(bool),
    Azimuth(crate::NumberOrString),
    BaseFrequency(crate::NumberOrString),
    BaselineShift(crate::NumberOrString),
    BaseProfile(crate::NumberOrString),
    Bbox(crate::NumberOrString),
    Begin(crate::NumberOrString),
    Bias(crate::NumberOrString),
    By(crate::NumberOrString),
    CalcMode(crate::NumberOrString),
    CapHeight(crate::NumberOrString),
    Clip(crate::NumberOrString),
    ClipPath(&'a str),
    ClipPathUnits(ClipPathUnits),
    ClipRule(ClipRule),
    ColorInterpolation(crate::NumberOrString),
    ColorInterpolationFilters(ColorInterpolationFilters),
    ColorProfile(crate::NumberOrString),
    ColorRendering(crate::NumberOrString),
    ContentScriptType(crate::NumberOrString),
    ContentStyleType(crate::NumberOrString),
    Cursor(crate::NumberOrString),
    Cx(crate::NumberOrString),
    Cy(crate::NumberOrString),
    D(&'a str),
    Decelerate(crate::NumberOrString),
    Descent(crate::NumberOrString),
    DiffuseConstant(crate::NumberOrString),
    Direction(crate::NumberOrString),
    Display(crate::NumberOrString),
    Divisor(crate::NumberOrString),
    DominantBaseline(crate::NumberOrString),
    Dur(crate::NumberOrString),
    Dx(crate::NumberOrString),
    Dy(crate::NumberOrString),
    EdgeMode(crate::NumberOrString),
    Elevation(crate::NumberOrString),
    EnableBackground(crate::NumberOrString),
    End(crate::NumberOrString),
    Exponent(crate::NumberOrString),
    ExternalResourcesRequired(bool),
    Fill(&'a str),
    FillOpacity(crate::NumberOrString),
    FillRule(FillRule),
    Filter(&'a str),
    FilterRes(crate::NumberOrString),
    FilterUnits(crate::NumberOrString),
    FloodColor(crate::NumberOrString),
    FloodOpacity(crate::NumberOrString),
    Focusable(Focusable),
    FontFamily(&'a str),
    FontSize(crate::NumberOrString),
    FontSizeAdjust(crate::NumberOrString),
    FontStretch(crate::NumberOrString),
    FontStyle(crate::NumberOrString),
    FontVariant(crate::NumberOrString),
    FontWeight(crate::NumberOrString),
    Format(crate::NumberOrString),
    Fr(crate::NumberOrString),
    From(crate::NumberOrString),
    Fx(crate::NumberOrString),
    Fy(crate::NumberOrString),
    G1(crate::NumberOrString),
    G2(crate::NumberOrString),
    GlyphName(crate::NumberOrString),
    GlyphOrientationHorizontal(crate::NumberOrString),
    GlyphOrientationVertical(crate::NumberOrString),
    GlyphRef(crate::NumberOrString),
    GradientTransform(String),
    GradientUnits(&'a str),
    Hanging(crate::NumberOrString),
    HorizAdvX(crate::NumberOrString),
    HorizOriginX(crate::NumberOrString),
    Href(&'a str),
    Ideographic(crate::NumberOrString),
    ImageRendering(crate::NumberOrString),
    In2(crate::NumberOrString),
    In(&'a str),
    Intercept(crate::NumberOrString),
    K1(crate::NumberOrString),
    K2(crate::NumberOrString),
    K3(crate::NumberOrString),
    K4(crate::NumberOrString),
    K(crate::NumberOrString),
    KernelMatrix(crate::NumberOrString),
    KernelUnitLength(crate::NumberOrString),
    Kerning(crate::NumberOrString),
    KeyPoints(crate::NumberOrString),
    KeySplines(crate::NumberOrString),
    KeyTimes(crate::NumberOrString),
    LengthAdjust(crate::NumberOrString),
    LetterSpacing(crate::NumberOrString),
    LightingColor(crate::NumberOrString),
    LimitingConeAngle(crate::NumberOrString),
    Local(crate::NumberOrString),
    MarkerEnd(&'a str),
    MarkerHeight(crate::NumberOrString),
    MarkerMid(&'a str),
    MarkerStart(&'a str),
    MarkerUnits(crate::NumberOrString),
    MarkerWidth(crate::NumberOrString),
    Mask(&'a str),
    MaskContentUnits(crate::NumberOrString),
    MaskUnits(crate::NumberOrString),
    Mathematical(crate::NumberOrString),
    Mode(crate::NumberOrString),
    NumOctaves(crate::NumberOrString),
    Offset(crate::NumberOrString),
    Opacity(crate::NumberOrString),
    Operator(crate::NumberOrString),
    Order(crate::NumberOrString),
    Orient(crate::NumberOrString),
    Orientation(crate::NumberOrString),
    Origin(crate::NumberOrString),
    Overflow(crate::NumberOrString),
    OverlinePosition(crate::NumberOrString),
    PverlineThickness(crate::NumberOrString),
    PaintOrder(crate::NumberOrString),
    Panose1(crate::NumberOrString),
    Path(&'a str),
    PathLength(crate::NumberOrString),
    PatternContentUnits(&'a str),
    PatternTransform(crate::NumberOrString),
    PatternUnits(&'a str),
    PointerEvents(crate::NumberOrString),
    Points(&'a str),
    PointsAtX(crate::NumberOrString),
    PointsAtY(crate::NumberOrString),
    PointsAtZ(crate::NumberOrString),
    PreserveAlpha(bool),
    OreserveAspectRatio(&'a str),
    PrimitiveUnits(crate::NumberOrString),
    R(crate::NumberOrString),
    Radius(crate::NumberOrString),
    RefX(crate::NumberOrString),
    RefY(crate::NumberOrString),
    RenderingIntent(crate::NumberOrString),
    RepeatCount(crate::NumberOrString),
    RepeatDur(crate::NumberOrString),
    RequiredExtensions(crate::NumberOrString),
    RequiredFeatures(crate::NumberOrString),
    Restart(crate::NumberOrString),
    Result(&'a str),
    Rotate(crate::NumberOrString),
    Rx(crate::NumberOrString),
    Ry(crate::NumberOrString),
    Scale(crate::NumberOrString),
    Seed(crate::NumberOrString),
    ShapeRendering(crate::NumberOrString),
    Slope(crate::NumberOrString),
    Spacing(crate::NumberOrString),
    SpecularConstant(crate::NumberOrString),
    SpecularExponent(crate::NumberOrString),
    Speed(crate::NumberOrString),
    SpreadMethod(&'a str),
    StartOffset(crate::NumberOrString),
    StdDeviation(crate::NumberOrString),
    Stemh(crate::NumberOrString),
    Stemv(crate::NumberOrString),
    StitchTiles(crate::NumberOrString),
    StopColor(&'a str),
    StopOpacity(crate::NumberOrString),
    StrikethroughPosition(crate::NumberOrString),
    StrikethroughThickness(crate::NumberOrString),
    String(crate::NumberOrString),
    Stroke(&'a str),
    StrokeDasharray(crate::NumberOrString),
    StrokeDashoffset(crate::NumberOrString),
    StrokeLinecap(StrokeLinecap),
    StrokeLinejoin(StrokeLinejoin),
    StrokeMiterlimit(crate::NumberOrString),
    StrokeOpacity(crate::NumberOrString),
    StrokeWidth(crate::NumberOrString),
    SurfaceScale(crate::NumberOrString),
    SystemLanguage(crate::NumberOrString),
    TableValues(crate::NumberOrString),
    TargetX(crate::NumberOrString),
    TargetY(crate::NumberOrString),
    TextAnchor(String),
    TextDecoration(crate::NumberOrString),
    TextLength(crate::NumberOrString),
    TextRendering(crate::NumberOrString),
    To(crate::NumberOrString),
    Transform(&'a str),
    U1(crate::NumberOrString),
    U2(crate::NumberOrString),
    EnderlinePosition(crate::NumberOrString),
    UnderlineThickness(crate::NumberOrString),
    Unicode(crate::NumberOrString),
    UnicodeBidi(crate::NumberOrString),
    UnicodeRange(crate::NumberOrString),
    UnitsPerEm(crate::NumberOrString),
    VAlphabetic(crate::NumberOrString),
    Values(&'a str),
    VectorEffect(crate::NumberOrString),
    Version(&'a str),
    VertAdvY(crate::NumberOrString),
    VertOriginX(crate::NumberOrString),
    VertOriginY(crate::NumberOrString),
    VHanging(crate::NumberOrString),
    VIdeographic(crate::NumberOrString),
    SiewBox(&'a str),
    ViewTarget(crate::NumberOrString),
    Visibility(crate::NumberOrString),
    VMathematical(crate::NumberOrString),
    Widths(crate::NumberOrString),
    WordSpacing(crate::NumberOrString),
    WritingMode(crate::NumberOrString),
    X1(crate::NumberOrString),
    X2(crate::NumberOrString),
    X(crate::NumberOrString),
    XChannelSelector(&'a str),
    XHeight(crate::NumberOrString),
    XlinkActuate(&'a str),
    XlinkArcrole(&'a str),
    XlinkHref(&'a str),
    XlinkRole(&'a str),
    XlinkShow(&'a str),
    XlinkTitle(&'a str),
    XlinkType(&'a str),
    XmlBase(&'a str),
    XmlLang(&'a str),
    Xmlns(&'a str),
    XmlnsXlink(&'a str),
    XmlSpace(&'a str),
    Y1(crate::NumberOrString),
    Y2(crate::NumberOrString),
    Y(crate::NumberOrString),
    YChannelSelector(&'a str),
    Z(crate::NumberOrString),
    ZoomAndPan(&'a str),
}

impl<'a> SVGAttributes<'a> {
    /// The DOM key for this attribute.
    pub open spec fn spec_key(&self) -> Seq<char> {
        match self {
            SVGAttributes::Color(_) => "color"@,
            SVGAttributes::Height(_) => "height"@,
            SVGAttributes::Id(_) => "id"@,
            SVGAttributes::Lang(_) => "lang"@,
            SVGAttributes::Max(_) => "max"@,
            SVGAttributes::Media(_) => "media"@,
            SVGAttributes::Method(_) => "method"@,
            SVGAttributes::Min(_) => "min"@,
            SVGAttributes::Name(_) => "name"@,
            SVGAttributes::Target(_) => "target"@,
            SVGAttributes::Type(_) => "type"@,
            SVGAttributes::Width(_) => "width"@,
            SVGAttributes::Role(_) => "role"@,
            SVGAttributes::TabIndex(_) => "tab-index"@,
            SVGAttributes::CrossOrigin(_) => "cross-origin"@,
            SVGAttributes::AccentHeight(_) => "accent-height"@,
            SVGAttributes::Accumulate(_) => "accumulate"@,
            SVGAttributes::Additive(_) => "additive"@,
            SVGAttributes::AlignmentBaseline(_) => "alignment-baseline"@,
            SVGAttributes::AllowReorder(_) => "allowReorder"@,
            SVGAttributes::Alphabetic(_) => "alphabetic"@,
            SVGAttributes::Amplitude(_) => "amplitude"@,
            SVGAttributes::ArabicForm(_) => "arabic-form"@,
            SVGAttributes::Ascent(_) => "ascent"@,
            SVGAttributes::AttributeName(_) => "attributeName"@,
            SVGAttributes::AttributeType(_) => "attributeType"@,
            SVGAttributes::AutoReverse(_) => "auto-reverse"@,
            SVGAttributes::Azimuth(_) => "azimuth"@,
            SVGAttributes::BaseFrequency(_) => "baseFrequency"@,
            SVGAttributes::BaselineShift(_) => "baseline-shift"@,
            SVGAttributes::BaseProfile(_) => "baseProfile"@,
            SVGAttributes::Bbox(_) => "bbox"@,
            SVGAttributes::Begin(_) => "begin"@,
            SVGAttributes::Bias(_) => "bias"@,
            SVGAttributes::By(_) => "by"@,
            SVGAttributes::CalcMode(_) => "calc-mode"@,
            SVGAttributes::CapHeight(_) => "cap-height"@,
            SVGAttributes::Clip(_) => "clip"@,
            SVGAttributes::ClipPath(_) => "clipPath"@,
            SVGAttributes::ClipPathUnits(_) => "clipPathUnits"@,
            SVGAttributes::ClipRule(_) => "clip-rule"@,
            SVGAttributes::ColorInterpolation(_) => "color-interpolation"@,
            SVGAttributes::ColorInterpolationFilters(_) => "color-interpolation-filters"@,
            SVGAttributes::ColorProfile(_) => "color-profile"@,
            SVGAttributes::ColorRendering(_) => "color-rendering"@,
            SVGAttributes::ContentScriptType(_) => "contentScriptType"@,
            SVGAttributes::ContentStyleType(_) => "contentStyleType"@,
            SVGAttributes::Cursor(_) => "cursor"@,
            SVGAttributes::Cx(_) => "cx"@,
            SVGAttributes::Cy(_) => "cy"@,
            SVGAttributes::D(_) => "d"@,
            SVGAttributes::Decelerate(_) => "decelerate"@,
            SVGAttributes::Descent(_) => "descent"@,
            SVGAttributes::DiffuseConstant(_) => "diffuseConstant"@,
            SVGAttributes::Direction(_) => "direction"@,
            SVGAttributes::Display(_) => "display"@,
            SVGAttributes::Divisor(_) => "divisor"@,
            SVGAttributes::DominantBaseline(_) => "dominant-baseline"@,
            SVGAttributes::Dur(_) => "dur"@,
            SVGAttributes::Dx(_) => "dx"@,
            SVGAttributes::Dy(_) => "dy"@,
            SVGAttributes::EdgeMode(_) => "edgeMode"@,
            SVGAttributes::Elevation(_) => "elevation"@,
            SVGAttributes::EnableBackground(_) => "enable-background"@,
            SVGAttributes::End(_) => "end"@,
            SVGAttributes::Exponent(_) => "exponent"@,
            SVGAttributes::ExternalResourcesRequired(_) => "externalResourcesRequired"@,
            SVGAttributes::Fill(_) => "fill"@,
            SVGAttributes::FillOpacity(_) => "fill-opacity"@,
            SVGAttributes::FillRule(_) => "fill-rule"@,
            SVGAttributes::Filter(_) => "filter"@,
            SVGAttributes::FilterRes(_) => "filterRes"@,
            SVGAttributes::FilterUnits(_) => "filterUnits"@,
            SVGAttributes::FloodColor(_) => "flood-color"@,
            SVGAttributes::FloodOpacity(_) => "flood-opacity"@,
            SVGAttributes::Focusable(_) => "focusable"@,
            SVGAttributes::FontFamily(_) => "font-family"@,
            SVGAttributes::FontSize(_) => "font-size"@,
            SVGAttributes::FontSizeAdjust(_) => "font-size-adjust"@,
            SVGAttributes::FontStretch(_) => "font-stretch"@,
            SVGAttributes::FontStyle(_) => "font-style"@,
            SVGAttributes::FontVariant(_) => "font-variant"@,
            SVGAttributes::FontWeight(_) => "font-weight"@,
            SVGAttributes::Format(_) => "format"@,
            SVGAttributes::Fr(_) => "fr"@,
            SVGAttributes::From(_) => "from"@,
            SVGAttributes::Fx(_) => "fx"@,
            SVGAttributes::Fy(_) => "fy"@,
            SVGAttributes::G1(_) => "g1"@,
            SVGAttributes::G2(_) => "g2"@,
            SVGAttributes::GlyphName(_) => "glyph-name"@,
            SVGAttributes::GlyphOrientationHorizontal(_) => "glyph-orientation-horizontal"@,
            SVGAttributes::GlyphOrientationVertical(_) => "glyph-orientation-vertical"@,
            SVGAttributes::GlyphRef(_) => "glyphRef"@,
            SVGAttributes::GradientTransform(_) => "gradientTransform"@,
            SVGAttributes::GradientUnits(_) => "gradientUnits"@,
            SVGAttributes::Hanging(_) => "hanging"@,
            SVGAttributes::HorizAdvX(_) => "horizAdvX"@,
            SVGAttributes::HorizOriginX(_) => "horiz-origin-x"@,
            SVGAttributes::Href(_) => "href"@,
            SVGAttributes::Ideographic(_) => "ideographic"@,
            SVGAttributes::ImageRendering(_) => "image-rendering"@,
            SVGAttributes::In2(_) => "in2"@,
            SVGAttributes::In(_) => "in"@,
            SVGAttributes::Intercept(_) => "intercept"@,
            SVGAttributes::K1(_) => "k1"@,
            SVGAttributes::K2(_) => "k2"@,
            SVGAttributes::K3(_) => "k3"@,
            SVGAttributes::K4(_) => "k4"@,
            SVGAttributes::K(_) => "k"@,
            SVGAttributes::KernelMatrix(_) => "kernelMatrix"@,
            SVGAttributes::KernelUnitLength(_) => "kernelUnitLength"@,
            SVGAttributes::Kerning(_) => "kerning"@,
            SVGAttributes::KeyPoints(_) => "keyPoints"@,
            SVGAttributes::KeySplines(_) => "keySplines"@,
            SVGAttributes::KeyTimes(_) => "keyTimes"@,
            SVGAttributes::LengthAdjust(_) => "lengthAdjust"@,
            SVGAttributes::LetterSpacing(_) => "letter-spacing"@,
            SVGAttributes::LightingColor(_) => "lighting-color"@,
            SVGAttributes::LimitingConeAngle(_) => "limitingConeAngle"@,
            SVGAttributes::Local(_) => "local"@,
            SVGAttributes::MarkerEnd(_) => "marker-end"@,
            SVGAttributes::MarkerHeight(_) => "markerHeight"@,
            SVGAttributes::MarkerMid(_) => "marker-mid"@,
            SVGAttributes::MarkerStart(_) => "marker-start"@,
            SVGAttributes::MarkerUnits(_) => "markerUnits"@,
            SVGAttributes::MarkerWidth(_) => "markerWidth"@,
            SVGAttributes::Mask(_) => "mask"@,
            SVGAttributes::MaskContentUnits(_) => "maskContentUnits"@,
            SVGAttributes::MaskUnits(_) => "maskUnits"@,
            SVGAttributes::Mathematical(_) => "mathematical"@,
            SVGAttributes::Mode(_) => "mode"@,
            SVGAttributes::NumOctaves(_) => "numOctaves"@,
            SVGAttributes::Offset(_) => "offset"@,
            SVGAttributes::Opacity(_) => "opacity"@,
            SVGAttributes::Operator(_) => "operator"@,
            SVGAttributes::Order(_) => "order"@,
            SVGAttributes::Orient(_) => "orient"@,
            SVGAttributes::Orientation(_) => "orientation"@,
            SVGAttributes::Origin(_) => "origin"@,
            SVGAttributes::Overflow(_) => "overflow"@,
            SVGAttributes::OverlinePosition(_) => "overline-position"@,
            SVGAttributes::PverlineThickness(_) => "pverline-thickness"@,
            SVGAttributes::PaintOrder(_) => "paint-order"@,
            SVGAttributes::Panose1(_) => "panose-1"@,
            SVGAttributes::Path(_) => "path"@,
            SVGAttributes::PathLength(_) => "pathLength"@,
            SVGAttributes::PatternContentUnits(_) => "patternContentUnits"@,
            SVGAttributes::PatternTransform(_) => "patternTransform"@,
            SVGAttributes::PatternUnits(_) => "patternUnits"@,
            SVGAttributes::PointerEvents(_) => "pointer-events"@,
            SVGAttributes::Points(_) => "points"@,
            SVGAttributes::PointsAtX(_) => "pointsAtX"@,
            SVGAttributes::PointsAtY(_) => "pointsAtY"@,
            SVGAttributes::PointsAtZ(_) => "pointsAtZ"@,
            SVGAttributes::PreserveAlpha(_) => "preserveAlpha"@,
            SVGAttributes::OreserveAspectRatio(_) => "preserveAspectRatio"@,
            SVGAttributes::PrimitiveUnits(_) => "primitiveUnits"@,
            SVGAttributes::R(_) => "r"@,
            SVGAttributes::Radius(_) => "radius"@,
            SVGAttributes::RefX(_) => "refX"@,
            SVGAttributes::RefY(_) => "refY"@,
            SVGAttributes::RenderingIntent(_) => "rendering-intent"@,
            SVGAttributes::RepeatCount(_) => "repeatCount"@,
            SVGAttributes::RepeatDur(_) => "repeatDur"@,
            SVGAttributes::RequiredExtensions(_) => "requiredExtensions"@,
            SVGAttributes::RequiredFeatures(_) => "requiredFeatures"@,
            SVGAttributes::Restart(_) => "restart"@,
            SVGAttributes::Result(_) => "result"@,
            SVGAttributes::Rotate(_) => "rotate"@,
            SVGAttributes::Rx(_) => "rx"@,
            SVGAttributes::Ry(_) => "ry"@,
            SVGAttributes::Scale(_) => "scale"@,
            SVGAttributes::Seed(_) => "seed"@,
            SVGAttributes::ShapeRendering(_) => "shape-rendering"@,
            SVGAttributes::Slope(_) => "slope"@,
            SVGAttributes::Spacing(_) => "spacing"@,
            SVGAttributes::SpecularConstant(_) => "requiredFeatures"@,
            SVGAttributes::SpecularExponent(_) => "specularExponent"@,
            SVGAttributes::Speed(_) => "speed"@,
            SVGAttributes::SpreadMethod(_) => "spreadMethod"@,
            SVGAttributes::StartOffset(_) => "startOffset"@,
            SVGAttributes::StdDeviation(_) => "stdDeviation"@,
            SVGAttributes::Stemh(_) => "stemh"@,
            SVGAttributes::Stemv(_) => "stemv"@,
            SVGAttributes::StitchTiles(_) => "stitchTiles"@,
            SVGAttributes::StopColor(_) => "stop-color"@,
            SVGAttributes::StopOpacity(_) => "stop-opacity"@,
            SVGAttributes::StrikethroughPosition(_) => "strikethrough-position"@,
            SVGAttributes::StrikethroughThickness(_) => "strikethrough-thickness"@,
            SVGAttributes::String(_) => "string"@,
            SVGAttributes::Stroke(_) => "stroke"@,
            SVGAttributes::StrokeDasharray(_) => "stroke-dasharray"@,
            SVGAttributes::StrokeDashoffset(_) => "stroke-dashoffset"@,
            SVGAttributes::StrokeLinecap(_) => "stroke-linecap"@,
            SVGAttributes::StrokeLinejoin(_) => "stroke-linejoin"@,
            SVGAttributes::StrokeMiterlimit(_) => "stroke-miterlimit"@,
            SVGAttributes::StrokeOpacity(_) => "stroke-opacity"@,
            SVGAttributes::StrokeWidth(_) => "stroke-width"@,
            SVGAttributes::SurfaceScale(_) => "surfaceScale"@,
            SVGAttributes::SystemLanguage(_) => "systemLanguage"@,
            SVGAttributes::TableValues(_) => "tableValues"@,
            SVGAttributes::TargetX(_) => "targetX"@,
            SVGAttributes::TargetY(_) => "targetY"@,
            SVGAttributes::TextAnchor(_) => "text-anchor"@,
            SVGAttributes::TextDecoration(_) => "text-decoration"@,
            SVGAttributes::TextLength(_) => "textLength"@,
            SVGAttributes::TextRendering(_) => "text-rendering"@,
            SVGAttributes::To(_) => "to"@,
            SVGAttributes::Transform(_) => "transform"@,
            SVGAttributes::U1(_) => "u1"@,
            SVGAttributes::U2(_) => "u2"@,
            SVGAttributes::EnderlinePosition(_) => "enderline-position"@,
            SVGAttributes::UnderlineThickness(_) => "underline-thickness"@,
            SVGAttributes::Unicode(_) => "unicode"@,
            SVGAttributes::UnicodeBidi(_) => "unicode-bidi"@,
            SVGAttributes::UnicodeRange(_) => "unicode-range"@,
            SVGAttributes::UnitsPerEm(_) => "units-per-em"@,
            SVGAttributes::VAlphabetic(_) => "v-alphabetic"@,
            SVGAttributes::Values(_) => "values"@,
            SVGAttributes::VectorEffect(_) => "vector-effect"@,
            SVGAttributes::Version(_) => "version"@,
            SVGAttributes::VertAdvY(_) => "vert-adv-y"@,
            SVGAttributes::VertOriginX(_) => "vert-origin-x"@,
            SVGAttributes::VertOriginY(_) => "vert-origin-y"@,
            SVGAttributes::VHanging(_) => "v-hanging"@,
            SVGAttributes::VIdeographic(_) => "v-ideographic"@,
            SVGAttributes::SiewBox(_) => "viewBox"@,
            SVGAttributes::ViewTarget(_) => "viewTarget"@,
            SVGAttributes::Visibility(_) => "visibility"@,
            SVGAttributes::VMathematical(_) => "v-mathematical"@,
            SVGAttributes::Widths(_) => "widths"@,
            SVGAttributes::WordSpacing(_) => "word-spacing"@,
            SVGAttributes::WritingMode(_) => "writing-mode"@,
            SVGAttributes::X1(_) => "x1"@,
            SVGAttributes::X2(_) => "x2"@,
            SVGAttributes::X(_) => "x"@,
            SVGAttributes::XChannelSelector(_) => "xChannelSelector"@,
            SVGAttributes::XHeight(_) => "x-height"@,
            SVGAttributes::XlinkActuate(_) => "xlink:actuate"@,
            SVGAttributes::XlinkArcrole(_) => "xlink:arcrole"@,
            SVGAttributes::XlinkHref(_) => "xlink:href"@,
            SVGAttributes::XlinkRole(_) => "xlink:role"@,
            SVGAttributes::XlinkShow(_) => "xlink:show"@,
            SVGAttributes::XlinkTitle(_) => "xlink:title"@,
            SVGAttributes::XlinkType(_) => "xlink:type"@,
            SVGAttributes::XmlBase(_) => "xml:base"@,
            SVGAttributes::XmlLang(_) => "xml:lang"@,
            SVGAttributes::Xmlns(_) => "xmlns"@,
            SVGAttributes::XmlnsXlink(_) => "xmlns:xlink"@,
            SVGAttributes::XmlSpace(_) => "xml:space"@,
            SVGAttributes::Y1(_) => "y1"@,
            SVGAttributes::Y2(_) => "y2"@,
            SVGAttributes::Y(_) => "y"@,
            SVGAttributes::YChannelSelector(_) => "yChannelSelector"@,
            SVGAttributes::Z(_) => "z"@,
            SVGAttributes::ZoomAndPan(_) => "zoomAndPan"@,
        }
    }

    /// The serialized value; `None` stands for a boolean attribute.
    pub open spec fn spec_val(&self) -> Option<Seq<char>> {
        match self {
            SVGAttributes::Color(val) => Some(val@),
            SVGAttributes::Height(val) => Some(val.spec_str()),
            SVGAttributes::Id(val) => Some(val@),
            SVGAttributes::Lang(val) => Some(val@),
            SVGAttributes::Max(val) => Some(val.spec_str()),
            SVGAttributes::Media(val) => Some(val@),
            SVGAttributes::Method(val) => Some(val@),
            SVGAttributes::Min(val) => Some(val.spec_str()),
            SVGAttributes::Name(val) => Some(val@),
            SVGAttributes::Target(val) => Some(val@),
            SVGAttributes::Type(val) => Some(val@),
            SVGAttributes::Width(val) => Some(val.spec_str()),
            SVGAttributes::Role(val) => Some(val.spec_str()),
            SVGAttributes::TabIndex(val) => Some(spec_idec(*val as int)),
            SVGAttributes::CrossOrigin(val) => Some(val.spec_str()),
            SVGAttributes::AccentHeight(val) => Some(val.spec_str()),
            SVGAttributes::Accumulate(val) => Some(val.spec_str()),
            SVGAttributes::Additive(val) => Some(val.spec_str()),
            SVGAttributes::AlignmentBaseline(val) => Some(val.spec_str()),
            SVGAttributes::AllowReorder(val) => Some(val.spec_str()),
            SVGAttributes::Alphabetic(val) => Some(val.spec_str()),
            SVGAttributes::Amplitude(val) => Some(val.spec_str()),
            SVGAttributes::ArabicForm(val) => Some(val.spec_str()),
            SVGAttributes::Ascent(val) => Some(val.spec_str()),
            SVGAttributes::AttributeName(val) => Some(val@),
            SVGAttributes::AttributeType(val) => Some(val@),
            SVGAttributes::AutoReverse(val) => Some(spec_bool(*val)),
            SVGAttributes::Azimuth(val) => Some(val.spec_str()),
            SVGAttributes::BaseFrequency(val) => Some(val.spec_str()),
            SVGAttributes::BaselineShift(val) => Some(val.spec_str()),
            SVGAttributes::BaseProfile(val) => Some(val.spec_str()),
            SVGAttributes::Bbox(val) => Some(val.spec_str()),
            SVGAttributes::Begin(val) => Some(val.spec_str()),
            SVGAttributes::Bias(val) => Some(val.spec_str()),
            SVGAttributes::By(val) => Some(val.spec_str()),
            SVGAttributes::CalcMode(val) => Some(val.spec_str()),
            SVGAttributes::CapHeight(val) => Some(val.spec_str()),
            SVGAttributes::Clip(val) => Some(val.spec_str()),
            SVGAttributes::ClipPath(val) => Some(val@),
            SVGAttributes::ClipPathUnits(val) => Some(val.spec_str()),
            SVGAttributes::ClipRule(val) => Some(val.spec_str()),
            SVGAttributes::ColorInterpolation(val) => Some(val.spec_str()),
            SVGAttributes::ColorInterpolationFilters(val) => Some(val.spec_str()),
            SVGAttributes::ColorProfile(val) => Some(val.spec_str()),
            SVGAttributes::ColorRendering(val) => Some(val.spec_str()),
            SVGAttributes::ContentScriptType(val) => Some(val.spec_str()),
            SVGAttributes::ContentStyleType(val) => Some(val.spec_str()),
            SVGAttributes::Cursor(val) => Some(val.spec_str()),
            SVGAttributes::Cx(val) => Some(val.spec_str()),
            SVGAttributes::Cy(val) => Some(val.spec_str()),
            SVGAttributes::D(val) => Some(val@),
            SVGAttributes::Decelerate(val) => Some(val.spec_str()),
            SVGAttributes::Descent(val) => Some(val.spec_str()),
            SVGAttributes::DiffuseConstant(val) => Some(val.spec_str()),
            SVGAttributes::Direction(val) => Some(val.spec_str()),
            SVGAttributes::Display(val) => Some(val.spec_str()),
            SVGAttributes::Divisor(val) => Some(val.spec_str()),
            SVGAttributes::DominantBaseline(val) => Some(val.spec_str()),
            SVGAttributes::Dur(val) => Some(val.spec_str()),
            SVGAttributes::Dx(val) => Some(val.spec_str()),
            SVGAttributes::Dy(val) => Some(val.spec_str()),
            SVGAttributes::EdgeMode(val) => Some(val.spec_str()),
            SVGAttributes::Elevation(val) => Some(val.spec_str()),
            SVGAttributes::EnableBackground(val) => Some(val.spec_str()),
            SVGAttributes::End(val) => Some(val.spec_str()),
            SVGAttributes::Exponent(val) => Some(val.spec_str()),
            SVGAttributes::ExternalResourcesRequired(val) => Some(spec_bool(*val)),
            SVGAttributes::Fill(val) => Some(val@),
            SVGAttributes::FillOpacity(val) => Some(val.spec_str()),
            SVGAttributes::FillRule(val) => Some(val.spec_str()),
            SVGAttributes::Filter(val) => Some(val@),
            SVGAttributes::FilterRes(val) => Some(val.spec_str()),
            SVGAttributes::FilterUnits(val) => Some(val.spec_str()),
            SVGAttributes::FloodColor(val) => Some(val.spec_str()),
            SVGAttributes::FloodOpacity(val) => Some(val.spec_str()),
            SVGAttributes::Focusable(val) => Some(val.spec_str()),
            SVGAttributes::FontFamily(val) => Some(val@),
            SVGAttributes::FontSize(val) => Some(val.spec_str()),
            SVGAttributes::FontSizeAdjust(val) => Some(val.spec_str()),
            SVGAttributes::FontStretch(val) => Some(val.spec_str()),
            SVGAttributes::FontStyle(val) => Some(val.spec_str()),
            SVGAttributes::FontVariant(val) => Some(val.spec_str()),
            SVGAttributes::FontWeight(val) => Some(val.spec_str()),
            SVGAttributes::Format(val) => Some(val.spec_str()),
            SVGAttributes::Fr(val) => Some(val.spec_str()),
            SVGAttributes::From(val) => Some(val.spec_str()),
            SVGAttributes::Fx(val) => Some(val.spec_str()),
            SVGAttributes::Fy(val) => Some(val.spec_str()),
            SVGAttributes::G1(val) => Some(val.spec_str()),
            SVGAttributes::G2(val) => Some(val.spec_str()),
            SVGAttributes::GlyphName(val) => Some(val.spec_str()),
            SVGAttributes::GlyphOrientationHorizontal(val) => Some(val.spec_str()),
            SVGAttributes::GlyphOrientationVertical(val) => Some(val.spec_str()),
            SVGAttributes::GlyphRef(val) => Some(val.spec_str()),
            SVGAttributes::GradientTransform(val) => Some(val@),
            SVGAttributes::GradientUnits(val) => Some(val@),
            SVGAttributes::Hanging(val) => Some(val.spec_str()),
            SVGAttributes::HorizAdvX(val) => Some(val.spec_str()),
            SVGAttributes::HorizOriginX(val) => Some(val.spec_str()),
            SVGAttributes::Href(val) => Some(val@),
            SVGAttributes::Ideographic(val) => Some(val.spec_str()),
            SVGAttributes::ImageRendering(val) => Some(val.spec_str()),
            SVGAttributes::In2(val) => Some(val.spec_str()),
            SVGAttributes::In(val) => Some(val@),
            SVGAttributes::Intercept(val) => Some(val.spec_str()),
            SVGAttributes::K1(val) => Some(val.spec_str()),
            SVGAttributes::K2(val) => Some(val.spec_str()),
            SVGAttributes::K3(val) => Some(val.spec_str()),
            SVGAttributes::K4(val) => Some(val.spec_str()),
            SVGAttributes::K(val) => Some(val.spec_str()),
            SVGAttributes::KernelMatrix(val) => Some(val.spec_str()),
            SVGAttributes::KernelUnitLength(val) => Some(val.spec_str()),
            SVGAttributes::Kerning(val) => Some(val.spec_str()),
            SVGAttributes::KeyPoints(val) => Some(val.spec_str()),
            SVGAttributes::KeySplines(val) => Some(val.spec_str()),
            SVGAttributes::KeyTimes(val) => Some(val.spec_str()),
            SVGAttributes::LengthAdjust(val) => Some(val.spec_str()),
            SVGAttributes::LetterSpacing(val) => Some(val.spec_str()),
            SVGAttributes::LightingColor(val) => Some(val.spec_str()),
            SVGAttributes::LimitingConeAngle(val) => Some(val.spec_str()),
            SVGAttributes::Local(val) => Some(val.spec_str()),
            SVGAttributes::MarkerEnd(val) => Some(val@),
            SVGAttributes::MarkerHeight(val) => Some(val.spec_str()),
            SVGAttributes::MarkerMid(val) => Some(val@),
            SVGAttributes::MarkerStart(val) => Some(val@),
            SVGAttributes::MarkerUnits(val) => Some(val.spec_str()),
            SVGAttributes::MarkerWidth(val) => Some(val.spec_str()),
            SVGAttributes::Mask(val) => Some(val@),
            SVGAttributes::MaskContentUnits(val) => Some(val.spec_str()),
            SVGAttributes::MaskUnits(val) => Some(val.spec_str()),
            SVGAttributes::Mathematical(val) => Some(val.spec_str()),
            SVGAttributes::Mode(val) => Some(val.spec_str()),
            SVGAttributes::NumOctaves(val) => Some(val.spec_str()),
            SVGAttributes::Offset(val) => Some(val.spec_str()),
            SVGAttributes::Opacity(val) => Some(val.spec_str()),
            SVGAttributes::Operator(val) => Some(val.spec_str()),
            SVGAttributes::Order(val) => Some(val.spec_str()),
            SVGAttributes::Orient(val) => Some(val.spec_str()),
            SVGAttributes::Orientation(val) => Some(val.spec_str()),
            SVGAttributes::Origin(val) => Some(val.spec_str()),
            SVGAttributes::Overflow(val) => Some(val.spec_str()),
            SVGAttributes::OverlinePosition(val) => Some(val.spec_str()),
            SVGAttributes::PverlineThickness(val) => Some(val.spec_str()),
            SVGAttributes::PaintOrder(val) => Some(val.spec_str()),
            SVGAttributes::Panose1(val) => Some(val.spec_str()),
            SVGAttributes::Path(val) => Some(val@),
            SVGAttributes::PathLength(val) => Some(val.spec_str()),
            SVGAttributes::PatternContentUnits(val) => Some(val@),
            SVGAttributes::PatternTransform(val) => Some(val.spec_str()),
            SVGAttributes::PatternUnits(val) => Some(val@),
            SVGAttributes::PointerEvents(val) => Some(val.spec_str()),
            SVGAttributes::Points(val) => Some(val@),
            SVGAttributes::PointsAtX(val) => Some(val.spec_str()),
            SVGAttributes::PointsAtY(val) => Some(val.spec_str()),
            SVGAttributes::PointsAtZ(val) => Some(val.spec_str()),
            SVGAttributes::PreserveAlpha(val) => Some(spec_bool(*val)),
            SVGAttributes::OreserveAspectRatio(val) => Some(val@),
            SVGAttributes::PrimitiveUnits(val) => Some(val.spec_str()),
            SVGAttributes::R(val) => Some(val.spec_str()),
            SVGAttributes::Radius(val) => Some(val.spec_str()),
            SVGAttributes::RefX(val) => Some(val.spec_str()),
            SVGAttributes::RefY(val) => Some(val.spec_str()),
            SVGAttributes::RenderingIntent(val) => Some(val.spec_str()),
            SVGAttributes::RepeatCount(val) => Some(val.spec_str()),
            SVGAttributes::RepeatDur(val) => Some(val.spec_str()),
            SVGAttributes::RequiredExtensions(val) => Some(val.spec_str()),
            SVGAttributes::RequiredFeatures(val) => Some(val.spec_str()),
            SVGAttributes::Restart(val) => Some(val.spec_str()),
            SVGAttributes::Result(val) => Some(val@),
            SVGAttributes::Rotate(val) => Some(val.spec_str()),
            SVGAttributes::Rx(val) => Some(val.spec_str()),
            SVGAttributes::Ry(val) => Some(val.spec_str()),
            SVGAttributes::Scale(val) => Some(val.spec_str()),
            SVGAttributes::Seed(val) => Some(val.spec_str()),
            SVGAttributes::ShapeRendering(val) => Some(val.spec_str()),
            SVGAttributes::Slope(val) => Some(val.spec_str()),
            SVGAttributes::Spacing(val) => Some(val.spec_str()),
            SVGAttributes::SpecularConstant(val) => Some(val.spec_str()),
            SVGAttributes::SpecularExponent(val) => Some(val.spec_str()),
            SVGAttributes::Speed(val) => Some(val.spec_str()),
            SVGAttributes::SpreadMethod(val) => Some(val@),
            SVGAttributes::StartOffset(val) => Some(val.spec_str()),
            SVGAttributes::StdDeviation(val) => Some(val.spec_str()),
            SVGAttributes::Stemh(val) => Some(val.spec_str()),
            SVGAttributes::Stemv(val) => Some(val.spec_str()),
            SVGAttributes::StitchTiles(val) => Some(val.spec_str()),
            SVGAttributes::StopColor(val) => Some(val@),
            SVGAttributes::StopOpacity(val) => Some(val.spec_str()),
            SVGAttributes::StrikethroughPosition(val) => Some(val.spec_str()),
            SVGAttributes::StrikethroughThickness(val) => Some(val.spec_str()),
            SVGAttributes::String(val) => Some(val.spec_str()),
            SVGAttributes::Stroke(val) => Some(val@),
            SVGAttributes::StrokeDasharray(val) => Some(val.spec_str()),
            SVGAttributes::StrokeDashoffset(val) => Some(val.spec_str()),
            SVGAttributes::StrokeLinecap(val) => Some(val.spec_str()),
            SVGAttributes::StrokeLinejoin(val) => Some(val.spec_str()),
            SVGAttributes::StrokeMiterlimit(val) => Some(val.spec_str()),
            SVGAttributes::StrokeOpacity(val) => Some(val.spec_str()),
            SVGAttributes::StrokeWidth(val) => Some(val.spec_str()),
            SVGAttributes::SurfaceScale(val) => Some(val.spec_str()),
            SVGAttributes::SystemLanguage(val) => Some(val.spec_str()),
            SVGAttributes::TableValues(val) => Some(val.spec_str()),
            SVGAttributes::TargetX(val) => Some(val.spec_str()),
            SVGAttributes::TargetY(val) => Some(val.spec_str()),
            SVGAttributes::TextAnchor(val) => Some(val@),
            SVGAttributes::TextDecoration(val) => Some(val.spec_str()),
            SVGAttributes::TextLength(val) => Some(val.spec_str()),
            SVGAttributes::TextRendering(val) => Some(val.spec_str()),
            SVGAttributes::To(val) => Some(val.spec_str()),
            SVGAttributes::Transform(val) => Some(val@),
            SVGAttributes::U1(val) => Some(val.spec_str()),
            SVGAttributes::U2(val) => Some(val.spec_str()),
            SVGAttributes::EnderlinePosition(val) => Some(val.spec_str()),
            SVGAttributes::UnderlineThickness(val) => Some(val.spec_str()),
            SVGAttributes::Unicode(val) => Some(val.spec_str()),
            SVGAttributes::UnicodeBidi(val) => Some(val.spec_str()),
            SVGAttributes::UnicodeRange(val) => Some(val.spec_str()),
            SVGAttributes::UnitsPerEm(val) => Some(val.spec_str()),
            SVGAttributes::VAlphabetic(val) => Some(val.spec_str()),
            SVGAttributes::Values(val) => Some(val@),
            SVGAttributes::VectorEffect(val) => Some(val.spec_str()),
            SVGAttributes::Version(val) => Some(val@),
            SVGAttributes::VertAdvY(val) => Some(val.spec_str()),
            SVGAttributes::VertOriginX(val) => Some(val.spec_str()),
            SVGAttributes::VertOriginY(val) => Some(val.spec_str()),
            SVGAttributes::VHanging(val) => Some(val.spec_str()),
            SVGAttributes::VIdeographic(val) => Some(val.spec_str()),
            SVGAttributes::SiewBox(val) => Some(val@),
            SVGAttributes::ViewTarget(val) => Some(val.spec_str()),
            SVGAttributes::Visibility(val) => Some(val.spec_str()),
            SVGAttributes::VMathematical(val) => Some(val.spec_str()),
            SVGAttributes::Widths(val) => Some(val.spec_str()),
            SVGAttributes::WordSpacing(val) => Some(val.spec_str()),
            SVGAttributes::WritingMode(val) => Some(val.spec_str()),
            SVGAttributes::X1(val) => Some(val.spec_str()),
            SVGAttributes::X2(val) => Some(val.spec_str()),
            SVGAttributes::X(val) => Some(val.spec_str()),
            SVGAttributes::XChannelSelector(val) => Some(val@),
            SVGAttributes::XHeight(val) => Some(val.spec_str()),
            SVGAttributes::XlinkActuate(val) => Some(val@),
            SVGAttributes::XlinkArcrole(val) => Some(val@),
            SVGAttributes::XlinkHref(val) => Some(val@),
            SVGAttributes::XlinkRole(val) => Some(val@),
            SVGAttributes::XlinkShow(val) => Some(val@),
            SVGAttributes::XlinkTitle(val) => Some(val@),
            SVGAttributes::XlinkType(val) => Some(val@),
            SVGAttributes::XmlBase(val) => Some(val@),
            SVGAttributes::XmlLang(val) => Some(val@),
            SVGAttributes::Xmlns(val) => Some(val@),
            SVGAttributes::XmlnsXlink(val) => Some(val@),
            SVGAttributes::XmlSpace(val) => Some(val@),
            SVGAttributes::Y1(val) => Some(val.spec_str()),
            SVGAttributes::Y2(val) => Some(val.spec_str()),
            SVGAttributes::Y(val) => Some(val.spec_str()),
            SVGAttributes::YChannelSelector(val) => Some(val@),
            SVGAttributes::Z(val) => Some(val.spec_str()),
            SVGAttributes::ZoomAndPan(val) => Some(val@),
        }
    }

    /// Returns the DOM key for this attribute.
    pub fn get_key(&self) -> (r: String)
        ensures
            r@ == self.spec_key(),
    {
        String::from_str(
            match self {
                SVGAttributes::Color(_) => "color",
                SVGAttributes::Height(_) => "height",
                SVGAttributes::Id(_) => "id",
                SVGAttributes::Lang(_) => "lang",
                SVGAttributes::Max(_) => "max",
                SVGAttributes::Media(_) => "media",
                SVGAttributes::Method(_) => "method",
                SVGAttributes::Min(_) => "min",
                SVGAttributes::Name(_) => "name",
                SVGAttributes::Target(_) => "target",
                SVGAttributes::Type(_) => "type",
                SVGAttributes::Width(_) => "width",
                SVGAttributes::Role(_) => "role",
                SVGAttributes::TabIndex(_) => "tab-index",
                SVGAttributes::CrossOrigin(_) => "cross-origin",
                SVGAttributes::AccentHeight(_) => "accent-height",
                SVGAttributes::Accumulate(_) => "accumulate",
                SVGAttributes::Additive(_) => "additive",
                SVGAttributes::AlignmentBaseline(_) => "alignment-baseline",
                SVGAttributes::AllowReorder(_) => "allowReorder",
                SVGAttributes::Alphabetic(_) => "alphabetic",
                SVGAttributes::Amplitude(_) => "amplitude",
                SVGAttributes::ArabicForm(_) => "arabic-form",
                SVGAttributes::Ascent(_) => "ascent",
                SVGAttributes::AttributeName(_) => "attributeName",
                SVGAttributes::AttributeType(_) => "attributeType",
                SVGAttributes::AutoReverse(_) => "auto-reverse",
                SVGAttributes::Azimuth(_) => "azimuth",
                SVGAttributes::BaseFrequency(_) => "baseFrequency",
                SVGAttributes::BaselineShift(_) => "baseline-shift",
                SVGAttributes::BaseProfile(_) => "baseProfile",
                SVGAttributes::Bbox(_) => "bbox",
                SVGAttributes::Begin(_) => "begin",
                SVGAttributes::Bias(_) => "bias",
                SVGAttributes::By(_) => "by",
                SVGAttributes::CalcMode(_) => "calc-mode",
                SVGAttributes::CapHeight(_) => "cap-height",
                SVGAttributes::Clip(_) => "clip",
                SVGAttributes::ClipPath(_) => "clipPath",
                SVGAttributes::ClipPathUnits(_) => "clipPathUnits",
                SVGAttributes::ClipRule(_) => "clip-rule",
                SVGAttributes::ColorInterpolation(_) => "color-interpolation",
                SVGAttributes::ColorInterpolationFilters(_) => "color-interpolation-filters",
                SVGAttributes::ColorProfile(_) => "color-profile",
                SVGAttributes::ColorRendering(_) => "color-rendering",
                SVGAttributes::ContentScriptType(_) => "contentScriptType",
                SVGAttributes::ContentStyleType(_) => "contentStyleType",
                SVGAttributes::Cursor(_) => "cursor",
                SVGAttributes::Cx(_) => "cx",
                SVGAttributes::Cy(_) => "cy",
                SVGAttributes::D(_) => "d",
                SVGAttributes::Decelerate(_) => "decelerate",
                SVGAttributes::Descent(_) => "descent",
                SVGAttributes::DiffuseConstant(_) => "diffuseConstant",
                SVGAttributes::Direction(_) => "direction",
                SVGAttributes::Display(_) => "display",
                SVGAttributes::Divisor(_) => "divisor",
                SVGAttributes::DominantBaseline(_) => "dominant-baseline",
                SVGAttributes::Dur(_) => "dur",
                SVGAttributes::Dx(_) => "dx",
                SVGAttributes::Dy(_) => "dy",
                SVGAttributes::EdgeMode(_) => "edgeMode",
                SVGAttributes::Elevation(_) => "elevation",
                SVGAttributes::EnableBackground(_) => "enable-background",
                SVGAttributes::End(_) => "end",
                SVGAttributes::Exponent(_) => "exponent",
                SVGAttributes::ExternalResourcesRequired(_) => "externalResourcesRequired",
                SVGAttributes::Fill(_) => "fill",
                SVGAttributes::FillOpacity(_) => "fill-opacity",
                SVGAttributes::FillRule(_) => "fill-rule",
                SVGAttributes::Filter(_) => "filter",
                SVGAttributes::FilterRes(_) => "filterRes",
                SVGAttributes::FilterUnits(_) => "filterUnits",
                SVGAttributes::FloodColor(_) => "flood-color",
                SVGAttributes::FloodOpacity(_) => "flood-opacity",
                SVGAttributes::Focusable(_) => "focusable",
                SVGAttributes::FontFamily(_) => "font-family",
                SVGAttributes::FontSize(_) => "font-size",
                SVGAttributes::FontSizeAdjust(_) => "font-size-adjust",
                SVGAttributes::FontStretch(_) => "font-stretch",
                SVGAttributes::FontStyle(_) => "font-style",
                SVGAttributes::FontVariant(_) => "font-variant",
                SVGAttributes::FontWeight(_) => "font-weight",
                SVGAttributes::Format(_) => "format",
                SVGAttributes::Fr(_) => "fr",
                SVGAttributes::From(_) => "from",
                SVGAttributes::Fx(_) => "fx",
                SVGAttributes::Fy(_) => "fy",
                SVGAttributes::G1(_) => "g1",
                SVGAttributes::G2(_) => "g2",
                SVGAttributes::GlyphName(_) => "glyph-name",
                SVGAttributes::GlyphOrientationHorizontal(_) => "glyph-orientation-horizontal",
                SVGAttributes::GlyphOrientationVertical(_) => "glyph-orientation-vertical",
                SVGAttributes::GlyphRef(_) => "glyphRef",
                SVGAttributes::GradientTransform(_) => "gradientTransform",
                SVGAttributes::GradientUnits(_) => "gradientUnits",
                SVGAttributes::Hanging(_) => "hanging",
                SVGAttributes::HorizAdvX(_) => "horizAdvX",
                SVGAttributes::HorizOriginX(_) => "horiz-origin-x",
                SVGAttributes::Href(_) => "href",
                SVGAttributes::Ideographic(_) => "ideographic",
                SVGAttributes::ImageRendering(_) => "image-rendering",
                SVGAttributes::In2(_) => "in2",
                SVGAttributes::In(_) => "in",
                SVGAttributes::Intercept(_) => "intercept",
                SVGAttributes::K1(_) => "k1",
                SVGAttributes::K2(_) => "k2",
                SVGAttributes::K3(_) => "k3",
                SVGAttributes::K4(_) => "k4",
                SVGAttributes::K(_) => "k",
                SVGAttributes::KernelMatrix(_) => "kernelMatrix",
                SVGAttributes::KernelUnitLength(_) => "kernelUnitLength",
                SVGAttributes::Kerning(_) => "kerning",
                SVGAttributes::KeyPoints(_) => "keyPoints",
                SVGAttributes::KeySplines(_) => "keySplines",
                SVGAttributes::KeyTimes(_) => "keyTimes",
                SVGAttributes::LengthAdjust(_) => "lengthAdjust",
                SVGAttributes::LetterSpacing(_) => "letter-spacing",
                SVGAttributes::LightingColor(_) => "lighting-color",
                SVGAttributes::LimitingConeAngle(_) => "limitingConeAngle",
                SVGAttributes::Local(_) => "local",
                SVGAttributes::MarkerEnd(_) => "marker-end",
                SVGAttributes::MarkerHeight(_) => "markerHeight",
                SVGAttributes::MarkerMid(_) => "marker-mid",
                SVGAttributes::MarkerStart(_) => "marker-start",
                SVGAttributes::MarkerUnits(_) => "markerUnits",
                SVGAttributes::MarkerWidth(_) => "markerWidth",
                SVGAttributes::Mask(_) => "mask",
                SVGAttributes::MaskContentUnits(_) => "maskContentUnits",
                SVGAttributes::MaskUnits(_) => "maskUnits",
                SVGAttributes::Mathematical(_) => "mathematical",
                SVGAttributes::Mode(_) => "mode",
                SVGAttributes::NumOctaves(_) => "numOctaves",
                SVGAttributes::Offset(_) => "offset",
                SVGAttributes::Opacity(_) => "opacity",
                SVGAttributes::Operator(_) => "operator",
                SVGAttributes::Order(_) => "order",
                SVGAttributes::Orient(_) => "orient",
                SVGAttributes::Orientation(_) => "orientation",
                SVGAttributes::Origin(_) => "origin",
                SVGAttributes::Overflow(_) => "overflow",
                SVGAttributes::OverlinePosition(_) => "overline-position",
                SVGAttributes::PverlineThickness(_) => "pverline-thickness",
                SVGAttributes::PaintOrder(_) => "paint-order",
                SVGAttributes::Panose1(_) => "panose-1",
                SVGAttributes::Path(_) => "path",
                SVGAttributes::PathLength(_) => "pathLength",
                SVGAttributes::PatternContentUnits(_) => "patternContentUnits",
                SVGAttributes::PatternTransform(_) => "patternTransform",
                SVGAttributes::PatternUnits(_) => "patternUnits",
                SVGAttributes::PointerEvents(_) => "pointer-events",
                SVGAttributes::Points(_) => "points",
                SVGAttributes::PointsAtX(_) => "pointsAtX",
                SVGAttributes::PointsAtY(_) => "pointsAtY",
                SVGAttributes::PointsAtZ(_) => "pointsAtZ",
                SVGAttributes::PreserveAlpha(_) => "preserveAlpha",
                SVGAttributes::OreserveAspectRatio(_) => "preserveAspectRatio",
                SVGAttributes::PrimitiveUnits(_) => "primitiveUnits",
                SVGAttributes::R(_) => "r",
                SVGAttributes::Radius(_) => "radius",
                SVGAttributes::RefX(_) => "refX",
                SVGAttributes::RefY(_) => "refY",
                SVGAttributes::RenderingIntent(_) => "rendering-intent",
                SVGAttributes::RepeatCount(_) => "repeatCount",
                SVGAttributes::RepeatDur(_) => "repeatDur",
                SVGAttributes::RequiredExtensions(_) => "requiredExtensions",
                SVGAttributes::RequiredFeatures(_) => "requiredFeatures",
                SVGAttributes::Restart(_) => "restart",
                SVGAttributes::Result(_) => "result",
                SVGAttributes::Rotate(_) => "rotate",
                SVGAttributes::Rx(_) => "rx",
                SVGAttributes::Ry(_) => "ry",
                SVGAttributes::Scale(_) => "scale",
                SVGAttributes::Seed(_) => "seed",
                SVGAttributes::ShapeRendering(_) => "shape-rendering",
                SVGAttributes::Slope(_) => "slope",
                SVGAttributes::Spacing(_) => "spacing",
                SVGAttributes::SpecularConstant(_) => "requiredFeatures",
                SVGAttributes::SpecularExponent(_) => "specularExponent",
                SVGAttributes::Speed(_) => "speed",
                SVGAttributes::SpreadMethod(_) => "spreadMethod",
                SVGAttributes::StartOffset(_) => "startOffset",
                SVGAttributes::StdDeviation(_) => "stdDeviation",
                SVGAttributes::Stemh(_) => "stemh",
                SVGAttributes::Stemv(_) => "stemv",
                SVGAttributes::StitchTiles(_) => "stitchTiles",
                SVGAttributes::StopColor(_) => "stop-color",
                SVGAttributes::StopOpacity(_) => "stop-opacity",
                SVGAttributes::StrikethroughPosition(_) => "strikethrough-position",
                SVGAttributes::StrikethroughThickness(_) => "strikethrough-thickness",
                SVGAttributes::String(_) => "string",
                SVGAttributes::Stroke(_) => "stroke",
                SVGAttributes::StrokeDasharray(_) => "stroke-dasharray",
                SVGAttributes::StrokeDashoffset(_) => "stroke-dashoffset",
                SVGAttributes::StrokeLinecap(_) => "stroke-linecap",
                SVGAttributes::StrokeLinejoin(_) => "stroke-linejoin",
                SVGAttributes::StrokeMiterlimit(_) => "stroke-miterlimit",
                SVGAttributes::StrokeOpacity(_) => "stroke-opacity",
                SVGAttributes::StrokeWidth(_) => "stroke-width",
                SVGAttributes::SurfaceScale(_) => "surfaceScale",
                SVGAttributes::SystemLanguage(_) => "systemLanguage",
                SVGAttributes::TableValues(_) => "tableValues",
                SVGAttributes::TargetX(_) => "targetX",
                SVGAttributes::TargetY(_) => "targetY",
                SVGAttributes::TextAnchor(_) => "text-anchor",
                SVGAttributes::TextDecoration(_) => "text-decoration",
                SVGAttributes::TextLength(_) => "textLength",
                SVGAttributes::TextRendering(_) => "text-rendering",
                SVGAttributes::To(_) => "to",
                SVGAttributes::Transform(_) => "transform",
                SVGAttributes::U1(_) => "u1",
                SVGAttributes::U2(_) => "u2",
                SVGAttributes::EnderlinePosition(_) => "enderline-position",
                SVGAttributes::UnderlineThickness(_) => "underline-thickness",
                SVGAttributes::Unicode(_) => "unicode",
                SVGAttributes::UnicodeBidi(_) => "unicode-bidi",
                SVGAttributes::UnicodeRange(_) => "unicode-range",
                SVGAttributes::UnitsPerEm(_) => "units-per-em",
                SVGAttributes::VAlphabetic(_) => "v-alphabetic",
                SVGAttributes::Values(_) => "values",
                SVGAttributes::VectorEffect(_) => "vector-effect",
                SVGAttributes::Version(_) => "version",
                SVGAttributes::VertAdvY(_) => "vert-adv-y",
                SVGAttributes::VertOriginX(_) => "vert-origin-x",
                SVGAttributes::VertOriginY(_) => "vert-origin-y",
                SVGAttributes::VHanging(_) => "v-hanging",
                SVGAttributes::VIdeographic(_) => "v-ideographic",
                SVGAttributes::SiewBox(_) => "viewBox",
                SVGAttributes::ViewTarget(_) => "viewTarget",
                SVGAttributes::Visibility(_) => "visibility",
                SVGAttributes::VMathematical(_) => "v-mathematical",
                SVGAttributes::Widths(_) => "widths",
                SVGAttributes::WordSpacing(_) => "word-spacing",
                SVGAttributes::WritingMode(_) => "writing-mode",
                SVGAttributes::X1(_) => "x1",
                SVGAttributes::X2(_) => "x2",
                SVGAttributes::X(_) => "x",
                SVGAttributes::XChannelSelector(_) => "xChannelSelector",
                SVGAttributes::XHeight(_) => "x-height",
                SVGAttributes::XlinkActuate(_) => "xlink:actuate",
                SVGAttributes::XlinkArcrole(_) => "xlink:arcrole",
                SVGAttributes::XlinkHref(_) => "xlink:href",
                SVGAttributes::XlinkRole(_) => "xlink:role",
                SVGAttributes::XlinkShow(_) => "xlink:show",
                SVGAttributes::XlinkTitle(_) => "xlink:title",
                SVGAttributes::XlinkType(_) => "xlink:type",
                SVGAttributes::XmlBase(_) => "xml:base",
                SVGAttributes::XmlLang(_) => "xml:lang",
                SVGAttributes::Xmlns(_) => "xmlns",
                SVGAttributes::XmlnsXlink(_) => "xmlns:xlink",
                SVGAttributes::XmlSpace(_) => "xml:space",
                SVGAttributes::Y1(_) => "y1",
                SVGAttributes::Y2(_) => "y2",
                SVGAttributes::Y(_) => "y",
                SVGAttributes::YChannelSelector(_) => "yChannelSelector",
                SVGAttributes::Z(_) => "z",
                SVGAttributes::ZoomAndPan(_) => "zoomAndPan",
            },
        )
    }

    /// Returns the serialized value, `None` for a boolean attribute.
    pub fn get_val(&self) -> (r: Option<String>)
        ensures
            match r {
                Some(s) => self.spec_val() == Some(s@),
                None => self.spec_val() is None,
            },
    {
        match self {
            SVGAttributes::Color(val) => Some(String::from_str(val)),
            SVGAttributes::Height(val) => Some(val.to_string()),
            SVGAttributes::Id(val) => Some(String::from_str(val)),
            SVGAttributes::Lang(val) => Some(String::from_str(val)),
            SVGAttributes::Max(val) => Some(val.to_string()),
            SVGAttributes::Media(val) => Some(String::from_str(val)),
            SVGAttributes::Method(val) => Some(String::from_str(val)),
            SVGAttributes::Min(val) => Some(val.to_string()),
            SVGAttributes::Name(val) => Some(String::from_str(val)),
            SVGAttributes::Target(val) => Some(String::from_str(val)),
            SVGAttributes::Type(val) => Some(String::from_str(val)),
            SVGAttributes::Width(val) => Some(val.to_string()),
            SVGAttributes::Role(val) => Some(String::from_str(val.as_str())),
            SVGAttributes::TabIndex(val) => Some(i64_to_string(*val as i64)),
            SVGAttributes::CrossOrigin(val) => Some(String::from_str(val.as_str())),
            SVGAttributes::AccentHeight(val) => Some(val.to_string()),
            SVGAttributes::Accumulate(val) => Some(String::from_str(val.as_str())),
            SVGAttributes::Additive(val) => Some(String::from_str(val.as_str())),
            SVGAttributes::AlignmentBaseline(val) => Some(String::from_str(val.as_str())),
            SVGAttributes::AllowReorder(val) => Some(String::from_str(val.as_str())),
            SVGAttributes::Alphabetic(val) => Some(val.to_string()),
            SVGAttributes::Amplitude(val) => Some(val.to_string()),
            SVGAttributes::ArabicForm(val) => Some(String::from_str(val.as_str())),
            SVGAttributes::Ascent(val) => Some(val.to_string()),
            SVGAttributes::AttributeName(val) => Some(String::from_str(val)),
            SVGAttributes::AttributeType(val) => Some(String::from_str(val)),
            SVGAttributes::AutoReverse(val) => Some(bool_to_string(*val)),
            SVGAttributes::Azimuth(val) => Some(val.to_string()),
            SVGAttributes::BaseFrequency(val) => Some(val.to_string()),
            SVGAttributes::BaselineShift(val) => Some(val.to_string()),
            SVGAttributes::BaseProfile(val) => Some(val.to_string()),
            SVGAttributes::Bbox(val) => Some(val.to_string()),
            SVGAttributes::Begin(val) => Some(val.to_string()),
            SVGAttributes::Bias(val) => Some(val.to_string()),
            SVGAttributes::By(val) => Some(val.to_string()),
            SVGAttributes::CalcMode(val) => Some(val.to_string()),
            SVGAttributes::CapHeight(val) => Some(val.to_string()),
            SVGAttributes::Clip(val) => Some(val.to_string()),
            SVGAttributes::ClipPath(val) => Some(String::from_str(val)),
            SVGAttributes::ClipPathUnits(val) => Some(String::from_str(val.as_str())),
            SVGAttributes::ClipRule(val) => Some(String::from_str(val.as_str())),
            SVGAttributes::ColorInterpolation(val) => Some(val.to_string()),
            SVGAttributes::ColorInterpolationFilters(val) => Some(String::from_str(val.as_str())),
            SVGAttributes::ColorProfile(val) => Some(val.to_string()),
            SVGAttributes::ColorRendering(val) => Some(val.to_string()),
            SVGAttributes::ContentScriptType(val) => Some(val.to_string()),
            SVGAttributes::ContentStyleType(val) => Some(val.to_string()),
            SVGAttributes::Cursor(val) => Some(val.to_string()),
            SVGAttributes::Cx(val) => Some(val.to_string()),
            SVGAttributes::Cy(val) => Some(val.to_string()),
            SVGAttributes::D(val) => Some(String::from_str(val)),
            SVGAttributes::Decelerate(val) => Some(val.to_string()),
            SVGAttributes::Descent(val) => Some(val.to_string()),
            SVGAttributes::DiffuseConstant(val) => Some(val.to_string()),
            SVGAttributes::Direction(val) => Some(val.to_string()),
            SVGAttributes::Display(val) => Some(val.to_string()),
            SVGAttributes::Divisor(val) => Some(val.to_string()),
            SVGAttributes::DominantBaseline(val) => Some(val.to_string()),
            SVGAttributes::Dur(val) => Some(val.to_string()),
            SVGAttributes::Dx(val) => Some(val.to_string()),
            SVGAttributes::Dy(val) => Some(val.to_string()),
            SVGAttributes::EdgeMode(val) => Some(val.to_string()),
            SVGAttributes::Elevation(val) => Some(val.to_string()),
            SVGAttributes::EnableBackground(val) => Some(val.to_string()),
            SVGAttributes::End(val) => Some(val.to_string()),
            SVGAttributes::Exponent(val) => Some(val.to_string()),
            SVGAttributes::ExternalResourcesRequired(val) => Some(bool_to_string(*val)),
            SVGAttributes::Fill(val) => Some(String::from_str(val)),
            SVGAttributes::FillOpacity(val) => Some(val.to_string()),
            SVGAttributes::FillRule(val) => Some(String::from_str(val.as_str())),
            SVGAttributes::Filter(val) => Some(String::from_str(val)),
            SVGAttributes::FilterRes(val) => Some(val.to_string()),
            SVGAttributes::FilterUnits(val) => Some(val.to_string()),
            SVGAttributes::FloodColor(val) => Some(val.to_string()),
            SVGAttributes::FloodOpacity(val) => Some(val.to_string()),
            SVGAttributes::Focusable(val) => Some(String::from_str(val.as_str())),
            SVGAttributes::FontFamily(val) => Some(String::from_str(val)),
            SVGAttributes::FontSize(val) => Some(val.to_string()),
            SVGAttributes::FontSizeAdjust(val) => Some(val.to_string()),
            SVGAttributes::FontStretch(val) => Some(val.to_string()),
            SVGAttributes::FontStyle(val) => Some(val.to_string()),
            SVGAttributes::FontVariant(val) => Some(val.to_string()),
            SVGAttributes::FontWeight(val) => Some(val.to_string()),
            SVGAttributes::Format(val) => Some(val.to_string()),
            SVGAttributes::Fr(val) => Some(val.to_string()),
            SVGAttributes::From(val) => Some(val.to_string()),
            SVGAttributes::Fx(val) => Some(val.to_string()),
            SVGAttributes::Fy(val) => Some(val.to_string()),
            SVGAttributes::G1(val) => Some(val.to_string()),
            SVGAttributes::G2(val) => Some(val.to_string()),
            SVGAttributes::GlyphName(val) => Some(val.to_string()),
            SVGAttributes::GlyphOrientationHorizontal(val) => Some(val.to_string()),
            SVGAttributes::GlyphOrientationVertical(val) => Some(val.to_string()),
            SVGAttributes::GlyphRef(val) => Some(val.to_string()),
            SVGAttributes::GradientTransform(val) => Some(val.clone()),
            SVGAttributes::GradientUnits(val) => Some(String::from_str(val)),
            SVGAttributes::Hanging(val) => Some(val.to_string()),
            SVGAttributes::HorizAdvX(val) => Some(val.to_string()),
            SVGAttributes::HorizOriginX(val) => Some(val.to_string()),
            SVGAttributes::Href(val) => Some(String::from_str(val)),
            SVGAttributes::Ideographic(val) => Some(val.to_string()),
            SVGAttributes::ImageRendering(val) => Some(val.to_string()),
            SVGAttributes::In2(val) => Some(val.to_string()),
            SVGAttributes::In(val) => Some(String::from_str(val)),
            SVGAttributes::Intercept(val) => Some(val.to_string()),
            SVGAttributes::K1(val) => Some(val.to_string()),
            SVGAttributes::K2(val) => Some(val.to_string()),
            SVGAttributes::K3(val) => Some(val.to_string()),
            SVGAttributes::K4(val) => Some(val.to_string()),
            SVGAttributes::K(val) => Some(val.to_string()),
            SVGAttributes::KernelMatrix(val) => Some(val.to_string()),
            SVGAttributes::KernelUnitLength(val) => Some(val.to_string()),
            SVGAttributes::Kerning(val) => Some(val.to_string()),
            SVGAttributes::KeyPoints(val) => Some(val.to_string()),
            SVGAttributes::KeySplines(val) => Some(val.to_string()),
            SVGAttributes::KeyTimes(val) => Some(val.to_string()),
            SVGAttributes::LengthAdjust(val) => Some(val.to_string()),
            SVGAttributes::LetterSpacing(val) => Some(val.to_string()),
            SVGAttributes::LightingColor(val) => Some(val.to_string()),
            SVGAttributes::LimitingConeAngle(val) => Some(val.to_string()),
            SVGAttributes::Local(val) => Some(val.to_string()),
            SVGAttributes::MarkerEnd(val) => Some(String::from_str(val)),
            SVGAttributes::MarkerHeight(val) => Some(val.to_string()),
            SVGAttributes::MarkerMid(val) => Some(String::from_str(val)),
            SVGAttributes::MarkerStart(val) => Some(String::from_str(val)),
            SVGAttributes::MarkerUnits(val) => Some(val.to_string()),
            SVGAttributes::MarkerWidth(val) => Some(val.to_string()),
            SVGAttributes::Mask(val) => Some(String::from_str(val)),
            SVGAttributes::MaskContentUnits(val) => Some(val.to_string()),
            SVGAttributes::MaskUnits(val) => Some(val.to_string()),
            SVGAttributes::Mathematical(val) => Some(val.to_string()),
            SVGAttributes::Mode(val) => Some(val.to_string()),
            SVGAttributes::NumOctaves(val) => Some(val.to_string()),
            SVGAttributes::Offset(val) => Some(val.to_string()),
            SVGAttributes::Opacity(val) => Some(val.to_string()),
            SVGAttributes::Operator(val) => Some(val.to_string()),
            SVGAttributes::Order(val) => Some(val.to_string()),
            SVGAttributes::Orient(val) => Some(val.to_string()),
            SVGAttributes::Orientation(val) => Some(val.to_string()),
            SVGAttributes::Origin(val) => Some(val.to_string()),
            SVGAttributes::Overflow(val) => Some(val.to_string()),
            SVGAttributes::OverlinePosition(val) => Some(val.to_string()),
            SVGAttributes::PverlineThickness(val) => Some(val.to_string()),
            SVGAttributes::PaintOrder(val) => Some(val.to_string()),
            SVGAttributes::Panose1(val) => Some(val.to_string()),
            SVGAttributes::Path(val) => Some(String::from_str(val)),
            SVGAttributes::PathLength(val) => Some(val.to_string()),
            SVGAttributes::PatternContentUnits(val) => Some(String::from_str(val)),
            SVGAttributes::PatternTransform(val) => Some(val.to_string()),
            SVGAttributes::PatternUnits(val) => Some(String::from_str(val)),
            SVGAttributes::PointerEvents(val) => Some(val.to_string()),
            SVGAttributes::Points(val) => Some(String::from_str(val)),
            SVGAttributes::PointsAtX(val) => Some(val.to_string()),
            SVGAttributes::PointsAtY(val) => Some(val.to_string()),
            SVGAttributes::PointsAtZ(val) => Some(val.to_string()),
            SVGAttributes::PreserveAlpha(val) => Some(bool_to_string(*val)),
            SVGAttributes::OreserveAspectRatio(val) => Some(String::from_str(val)),
            SVGAttributes::PrimitiveUnits(val) => Some(val.to_string()),
            SVGAttributes::R(val) => Some(val.to_string()),
            SVGAttributes::Radius(val) => Some(val.to_string()),
            SVGAttributes::RefX(val) => Some(val.to_string()),
            SVGAttributes::RefY(val) => Some(val.to_string()),
            SVGAttributes::RenderingIntent(val) => Some(val.to_string()),
            SVGAttributes::RepeatCount(val) => Some(val.to_string()),
            SVGAttributes::RepeatDur(val) => Some(val.to_string()),
            SVGAttributes::RequiredExtensions(val) => Some(val.to_string()),
            SVGAttributes::RequiredFeatures(val) => Some(val.to_string()),
            SVGAttributes::Restart(val) => Some(val.to_string()),
            SVGAttributes::Result(val) => Some(String::from_str(val)),
            SVGAttributes::Rotate(val) => Some(val.to_string()),
            SVGAttributes::Rx(val) => Some(val.to_string()),
            SVGAttributes::Ry(val) => Some(val.to_string()),
            SVGAttributes::Scale(val) => Some(val.to_string()),
            SVGAttributes::Seed(val) => Some(val.to_string()),
            SVGAttributes::ShapeRendering(val) => Some(val.to_string()),
            SVGAttributes::Slope(val) => Some(val.to_string()),
            SVGAttributes::Spacing(val) => Some(val.to_string()),
            SVGAttributes::SpecularConstant(val) => Some(val.to_string()),
            SVGAttributes::SpecularExponent(val) => Some(val.to_string()),
            SVGAttributes::Speed(val) => Some(val.to_string()),
            SVGAttributes::SpreadMethod(val) => Some(String::from_str(val)),
            SVGAttributes::StartOffset(val) => Some(val.to_string()),
            SVGAttributes::StdDeviation(val) => Some(val.to_string()),
            SVGAttributes::Stemh(val) => Some(val.to_string()),
            SVGAttributes::Stemv(val) => Some(val.to_string()),
            SVGAttributes::StitchTiles(val) => Some(val.to_string()),
            SVGAttributes::StopColor(val) => Some(String::from_str(val)),
            SVGAttributes::StopOpacity(val) => Some(val.to_string()),
            SVGAttributes::StrikethroughPosition(val) => Some(val.to_string()),
            SVGAttributes::StrikethroughThickness(val) => Some(val.to_string()),
            SVGAttributes::String(val) => Some(val.to_string()),
            SVGAttributes::Stroke(val) => Some(String::from_str(val)),
            SVGAttributes::StrokeDasharray(val) => Some(val.to_string()),
            SVGAttributes::StrokeDashoffset(val) => Some(val.to_string()),
            SVGAttributes::StrokeLinecap(val) => Some(String::from_str(val.as_str())),
            SVGAttributes::StrokeLinejoin(val) => Some(String::from_str(val.as_str())),
            SVGAttributes::StrokeMiterlimit(val) => Some(val.to_string()),
            SVGAttributes::StrokeOpacity(val) => Some(val.to_string()),
            SVGAttributes::StrokeWidth(val) => Some(val.to_string()),
            SVGAttributes::SurfaceScale(val) => Some(val.to_string()),
            SVGAttributes::SystemLanguage(val) => Some(val.to_string()),
            SVGAttributes::TableValues(val) => Some(val.to_string()),
            SVGAttributes::TargetX(val) => Some(val.to_string()),
            SVGAttributes::TargetY(val) => Some(val.to_string()),
            SVGAttributes::TextAnchor(val) => Some(val.clone()),
            SVGAttributes::TextDecoration(val) => Some(val.to_string()),
            SVGAttributes::TextLength(val) => Some(val.to_string()),
            SVGAttributes::TextRendering(val) => Some(val.to_string()),
            SVGAttributes::To(val) => Some(val.to_string()),
            SVGAttributes::Transform(val) => Some(String::from_str(val)),
            SVGAttributes::U1(val) => Some(val.to_string()),
            SVGAttributes::U2(val) => Some(val.to_string()),
            SVGAttributes::EnderlinePosition(val) => Some(val.to_string()),
            SVGAttributes::UnderlineThickness(val) => Some(val.to_string()),
            SVGAttributes::Unicode(val) => Some(val.to_string()),
            SVGAttributes::UnicodeBidi(val) => Some(val.to_string()),
            SVGAttributes::UnicodeRange(val) => Some(val.to_string()),
            SVGAttributes::UnitsPerEm(val) => Some(val.to_string()),
            SVGAttributes::VAlphabetic(val) => Some(val.to_string()),
            SVGAttributes::Values(val) => Some(String::from_str(val)),
            SVGAttributes::VectorEffect(val) => Some(val.to_string()),
            SVGAttributes::Version(val) => Some(String::from_str(val)),
            SVGAttributes::VertAdvY(val) => Some(val.to_string()),
            SVGAttributes::VertOriginX(val) => Some(val.to_string()),
            SVGAttributes::VertOriginY(val) => Some(val.to_string()),
            SVGAttributes::VHanging(val) => Some(val.to_string()),
            SVGAttributes::VIdeographic(val) => Some(val.to_string()),
            SVGAttributes::SiewBox(val) => Some(String::from_str(val)),
            SVGAttributes::ViewTarget(val) => Some(val.to_string()),
            SVGAttributes::Visibility(val) => Some(val.to_string()),
            SVGAttributes::VMathematical(val) => Some(val.to_string()),
            SVGAttributes::Widths(val) => Some(val.to_string()),
            SVGAttributes::WordSpacing(val) => Some(val.to_string()),
            SVGAttributes::WritingMode(val) => Some(val.to_string()),
            SVGAttributes::X1(val) => Some(val.to_string()),
            SVGAttributes::X2(val) => Some(val.to_string()),
            SVGAttributes::X(val) => Some(val.to_string()),
            SVGAttributes::XChannelSelector(val) => Some(String::from_str(val)),
            SVGAttributes::XHeight(val) => Some(val.to_string()),
            SVGAttributes::XlinkActuate(val) => Some(String::from_str(val)),
            SVGAttributes::XlinkArcrole(val) => Some(String::from_str(val)),
            SVGAttributes::XlinkHref(val) => Some(String::from_str(val)),
            SVGAttributes::XlinkRole(val) => Some(String::from_str(val)),
            SVGAttributes::XlinkShow(val) => Some(String::from_str(val)),
            SVGAttributes::XlinkTitle(val) => Some(String::from_str(val)),
            SVGAttributes::XlinkType(val) => Some(String::from_str(val)),
            SVGAttributes::XmlBase(val) => Some(String::from_str(val)),
            SVGAttributes::XmlLang(val) => Some(String::from_str(val)),
            SVGAttributes::Xmlns(val) => Some(String::from_str(val)),
            SVGAttributes::XmlnsXlink(val) => Some(String::from_str(val)),
            SVGAttributes::XmlSpace(val) => Some(String::from_str(val)),
            SVGAttributes::Y1(val) => Some(val.to_string()),
            SVGAttributes::Y2(val) => Some(val.to_string()),
            SVGAttributes::Y(val) => Some(val.to_string()),
            SVGAttributes::YChannelSelector(val) => Some(String::from_str(val)),
            SVGAttributes::Z(val) => Some(val.to_string()),
            SVGAttributes::ZoomAndPan(val) => Some(String::from_str(val)),
        }
    }
}

} // verus!
