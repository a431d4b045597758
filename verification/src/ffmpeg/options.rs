//! Choosing a libavcodec encoder, and its context and options.

use vstd::prelude::*;

use crate::config::EncoderConfig;
use crate::frame::{transfer_to_cicp, TransferFn};
use crate::gpu::GpuVendor;
use crate::rate;
use crate::text::{self, decimal, same_text};
use crate::tuning::{
    self, libaom_cq_for_target, AmfAv1Params, AmfQualityPreset, AmfRateControl, NvencParams,
    NvencRateControl, QsvParams, QsvRateControl, Rav1eParams, SpeedTier,
};

verus! {

/// The AV1 encoders of libavcodec that are in use.
#[derive(Debug, Clone, Copy, PartialEq, Eq, Structural)]
pub enum LibavEncoder {
    Nvenc,
    Amf,
    Qsv,
    Vaapi,
    SvtAv1,
    Aom,
    Rav1e,
}

impl LibavEncoder {
    /// The encoder's name.
    pub open spec fn label(self) -> Seq<char> {
        match self {
            LibavEncoder::Nvenc => "av1_nvenc"@,
            LibavEncoder::Amf => "av1_amf"@,
            LibavEncoder::Qsv => "av1_qsv"@,
            LibavEncoder::Vaapi => "av1_vaapi"@,
            LibavEncoder::SvtAv1 => "libsvtav1"@,
            LibavEncoder::Aom => "libaom-av1"@,
            LibavEncoder::Rav1e => "librav1e"@,
        }
    }

    /// The encoder's name.
    pub fn name(self) -> (s: &'static str)
        ensures
            s@ == self.label(),
    {
        match self {
            LibavEncoder::Nvenc => "av1_nvenc",
            LibavEncoder::Amf => "av1_amf",
            LibavEncoder::Qsv => "av1_qsv",
            LibavEncoder::Vaapi => "av1_vaapi",
            LibavEncoder::SvtAv1 => "libsvtav1",
            LibavEncoder::Aom => "libaom-av1",
            LibavEncoder::Rav1e => "librav1e",
        }
    }

    /// Whether the encoder runs on a GPU.
    pub open spec fn is_hardware(self) -> bool {
        match self {
            LibavEncoder::Nvenc | LibavEncoder::Amf | LibavEncoder::Qsv | LibavEncoder::Vaapi => true,
            _ => false,
        }
    }

    /// Whether the encoder can run where `device` is the vendor of the only
    /// device it may use, if there is one: hardware on a device of its own
    /// maker's (VA-API drives AMD and Intel), software anywhere.
    pub open spec fn runs_on(self, device: Option<GpuVendor>) -> bool {
        match self {
            LibavEncoder::Nvenc => device == Some(GpuVendor::Nvidia),
            LibavEncoder::Amf => device == Some(GpuVendor::Amd),
            LibavEncoder::Qsv => device == Some(GpuVendor::Intel),
            LibavEncoder::Vaapi => device == Some(GpuVendor::Amd) || device == Some(
                GpuVendor::Intel,
            ),
            _ => true,
        }
    }

    fn can_run_on(self, device: Option<GpuVendor>) -> (b: bool)
        ensures
            b == self.runs_on(device),
    {
        match (self, device) {
            (LibavEncoder::Nvenc, d) => matches!(d, Some(GpuVendor::Nvidia)),
            (LibavEncoder::Amf, d) => matches!(d, Some(GpuVendor::Amd)),
            (LibavEncoder::Qsv, d) => matches!(d, Some(GpuVendor::Intel)),
            (LibavEncoder::Vaapi, d) => matches!(d, Some(GpuVendor::Amd | GpuVendor::Intel)),
            _ => true,
        }
    }
}

/// No two encoders share a name.
pub proof fn names_are_told_apart(a: LibavEncoder, b: LibavEncoder)
    ensures
        a.label() == b.label() ==> a == b,
{
    reveal_strlit("av1_nvenc");
    reveal_strlit("av1_amf");
    reveal_strlit("av1_qsv");
    reveal_strlit("av1_vaapi");
    reveal_strlit("libsvtav1");
    reveal_strlit("libaom-av1");
    reveal_strlit("librav1e");
    if a.label() == b.label() {
        assert(a.label().len() == b.label().len());
        assert(a.label()[4] == b.label()[4]);
        assert(a.label()[3] == b.label()[3]);
    }
}

/// The order in which encoders are tried: hardware first, then software.
pub open spec fn preference() -> Seq<LibavEncoder> {
    seq![
        LibavEncoder::Nvenc,
        LibavEncoder::Amf,
        LibavEncoder::Qsv,
        LibavEncoder::Vaapi,
        LibavEncoder::SvtAv1,
        LibavEncoder::Aom,
        LibavEncoder::Rav1e,
    ]
}

/// The names of the encoders in the order they are tried.
pub open spec fn preference_labels() -> Seq<Seq<char>> {
    preference().map_values(|e: LibavEncoder| e.label())
}

/// Every hardware encoder is tried before any software one.
pub proof fn hardware_comes_first(i: int, j: int)
    requires
        0 <= i < preference().len(),
        0 <= j < preference().len(),
        preference()[i].is_hardware(),
        !preference()[j].is_hardware(),
    ensures
        i < j,
{
}

/// The texts of a list.
pub open spec fn texts(v: Seq<String>) -> Seq<Seq<char>> {
    v.map_values(|s: String| s@)
}

/// The encoders to try, in order. A name that the caller sets is tried alone.
pub fn av1_encoder_preference(named: Option<&str>) -> (names: Vec<String>)
    ensures
        texts(names@) == (match named {
            Some(n) => seq![n@],
            None => preference_labels(),
        }),
{
    let mut v: Vec<String> = Vec::new();
    match named {
        Some(n) => {
            v.push(n.to_owned());
            assert(texts(v@) =~= seq![n@]);
        },
        None => {
            v.push(LibavEncoder::Nvenc.name().to_owned());
            v.push(LibavEncoder::Amf.name().to_owned());
            v.push(LibavEncoder::Qsv.name().to_owned());
            v.push(LibavEncoder::Vaapi.name().to_owned());
            v.push(LibavEncoder::SvtAv1.name().to_owned());
            v.push(LibavEncoder::Aom.name().to_owned());
            v.push(LibavEncoder::Rav1e.name().to_owned());
            assert(texts(v@) =~= preference_labels());
        },
    }
    v
}

/// The names of the encoders that can run where `device` is the vendor of the
/// only device they may use, in the order they are tried, out of the first `n`.
pub open spec fn bound_labels(device: Option<GpuVendor>, n: int) -> Seq<Seq<char>>
    decreases n,
{
    if n <= 0 {
        Seq::empty()
    } else if preference()[n - 1].runs_on(device) {
        bound_labels(device, n - 1).push(preference()[n - 1].label())
    } else {
        bound_labels(device, n - 1)
    }
}

fn push_bound(
    v: &mut Vec<String>,
    e: LibavEncoder,
    device: Option<GpuVendor>,
    Ghost(n): Ghost<int>,
)
    requires
        0 <= n < preference().len(),
        preference()[n] == e,
        texts(old(v)@) == bound_labels(device, n),
    ensures
        texts(final(v)@) == bound_labels(device, n + 1),
{
    let ghost before = v@;
    if e.can_run_on(device) {
        v.push(e.name().to_owned());
        assert(texts(v@) =~= texts(before).push(e.label()));
    }
}

/// The encoders to try, in order, where only the device of this vendor may be
/// used, or none. A name that the caller sets is tried alone.
pub fn bound_encoder_preference(named: Option<&str>, device: Option<GpuVendor>) -> (names: Vec<
    String,
>)
    ensures
        texts(names@) == (match named {
            Some(n) => seq![n@],
            None => bound_labels(device, preference().len() as int),
        }),
{
    let mut v: Vec<String> = Vec::new();
    match named {
        Some(n) => {
            v.push(n.to_owned());
            assert(texts(v@) =~= seq![n@]);
        },
        None => {
            assert(texts(v@) =~= bound_labels(device, 0));
            push_bound(&mut v, LibavEncoder::Nvenc, device, Ghost(0));
            push_bound(&mut v, LibavEncoder::Amf, device, Ghost(1));
            push_bound(&mut v, LibavEncoder::Qsv, device, Ghost(2));
            push_bound(&mut v, LibavEncoder::Vaapi, device, Ghost(3));
            push_bound(&mut v, LibavEncoder::SvtAv1, device, Ghost(4));
            push_bound(&mut v, LibavEncoder::Aom, device, Ghost(5));
            push_bound(&mut v, LibavEncoder::Rav1e, device, Ghost(6));
        },
    }
    v
}

/// Where a device is requested, an encoder is tried exactly where it can run on
/// that device or needs none.
pub proof fn bound_encoders_run_on_the_device(device: Option<GpuVendor>, e: LibavEncoder)
    ensures
        bound_labels(device, preference().len() as int).contains(e.label()) <==> e.runs_on(device),
{
    bound_labels_hold(device, preference().len() as int, e);
    let i = match e {
        LibavEncoder::Nvenc => 0int,
        LibavEncoder::Amf => 1,
        LibavEncoder::Qsv => 2,
        LibavEncoder::Vaapi => 3,
        LibavEncoder::SvtAv1 => 4,
        LibavEncoder::Aom => 5,
        LibavEncoder::Rav1e => 6,
    };
    assert(preference()[i] == e);
}

proof fn bound_labels_hold(device: Option<GpuVendor>, n: int, e: LibavEncoder)
    requires
        0 <= n <= preference().len(),
    ensures
        bound_labels(device, n).contains(e.label()) <==> exists|i: int|
            0 <= i < n && #[trigger] preference()[i] == e && e.runs_on(device),
    decreases n,
{
    if n > 0 {
        bound_labels_hold(device, n - 1, e);
        let last = preference()[n - 1];
        let shorter = bound_labels(device, n - 1);
        names_are_told_apart(last, e);
        if last.runs_on(device) {
            let longer = shorter.push(last.label());
            assert(longer[shorter.len() as int] == last.label());
            if shorter.contains(e.label()) {
                let k = choose|k: int| 0 <= k < shorter.len() && shorter[k] == e.label();
                assert(longer[k] == e.label());
            }
            if longer.contains(e.label()) && last != e {
                let k = choose|k: int| 0 <= k < longer.len() && longer[k] == e.label();
                assert(k < shorter.len());
                assert(shorter[k] == e.label());
            }
        }
        if exists|i: int| 0 <= i < n && #[trigger] preference()[i] == e && e.runs_on(device) {
            let i = choose|i: int|
                0 <= i < n && #[trigger] preference()[i] == e && e.runs_on(device);
            if i < n - 1 {
                assert(preference()[i] == e);
            }
        }
    }
}

/// The interface through which libavcodec is handed a device.
#[derive(Debug, Clone, Copy, PartialEq, Eq, Structural)]
pub enum DeviceKind {
    Cuda,
    D3d11,
    Qsv,
    Vaapi,
}

/// How an encoder is bound to the one device that it may use.
#[derive(Debug, Clone, Copy, PartialEq, Eq, Structural)]
pub enum Binding {
    /// It needs no device.
    Unbound,
    /// By this interface.
    By(DeviceKind),
    /// It cannot run there.
    Impossible,
}

/// How an encoder is bound where `device` is the vendor of the only device it
/// may use, if there is one.
pub open spec fn binding(e: LibavEncoder, device: Option<GpuVendor>) -> Binding {
    if !e.is_hardware() {
        Binding::Unbound
    } else if !e.runs_on(device) {
        Binding::Impossible
    } else {
        Binding::By(
            match e {
                LibavEncoder::Nvenc => DeviceKind::Cuda,
                LibavEncoder::Amf => DeviceKind::D3d11,
                LibavEncoder::Qsv => DeviceKind::Qsv,
                _ => DeviceKind::Vaapi,
            },
        )
    }
}

/// How the encoder of this name is bound. One that is not among those in use is
/// not bound.
pub fn binding_of(name: &str, device: Option<GpuVendor>) -> (b: Binding)
    ensures
        forall|e: LibavEncoder| name@ == #[trigger] e.label() ==> b == binding(e, device),
        (forall|e: LibavEncoder| name@ != #[trigger] e.label()) ==> b == Binding::Unbound,
{
    let e: LibavEncoder = match encoder_named(name) {
        Some(e) => e,
        None => {
            return Binding::Unbound;
        },
    };
    proof {
        assert forall|o: LibavEncoder| name@ == #[trigger] o.label() implies o == e by {
            names_are_told_apart(e, o);
        }
    }
    let kind: DeviceKind = match e {
        LibavEncoder::Nvenc => DeviceKind::Cuda,
        LibavEncoder::Amf => DeviceKind::D3d11,
        LibavEncoder::Qsv => DeviceKind::Qsv,
        LibavEncoder::Vaapi => DeviceKind::Vaapi,
        _ => {
            return Binding::Unbound;
        },
    };
    if e.can_run_on(device) {
        Binding::By(kind)
    } else {
        Binding::Impossible
    }
}

/// The encoder a name stands for, if it is one of those in use.
pub fn encoder_named(name: &str) -> (e: Option<LibavEncoder>)
    ensures
        match e {
            Some(enc) => name@ == enc.label(),
            None => forall|enc: LibavEncoder| name@ != #[trigger] enc.label(),
        },
{
    if same_text(name, "av1_nvenc") {
        Some(LibavEncoder::Nvenc)
    } else if same_text(name, "av1_amf") {
        Some(LibavEncoder::Amf)
    } else if same_text(name, "av1_qsv") {
        Some(LibavEncoder::Qsv)
    } else if same_text(name, "av1_vaapi") {
        Some(LibavEncoder::Vaapi)
    } else if same_text(name, "libsvtav1") {
        Some(LibavEncoder::SvtAv1)
    } else if same_text(name, "libaom-av1") {
        Some(LibavEncoder::Aom)
    } else if same_text(name, "librav1e") {
        Some(LibavEncoder::Rav1e)
    } else {
        assert forall|enc: LibavEncoder| name@ != #[trigger] enc.label() by {}
        None
    }
}

/// Trying encoders one after the other.
pub struct Probe {
    names: Vec<String>,
    next: usize,
    last_error: Option<String>,
}

/// The text of the list that the failure message quotes.
pub open spec fn quoted_preference() -> Seq<char> {
    "[\"av1_nvenc\", \"av1_amf\", \"av1_qsv\", \"av1_vaapi\", \"libsvtav1\", \"libaom-av1\", \"librav1e\"]"@
}

/// What is said when no encoder opened.
pub open spec fn failure_text(last: Option<Seq<char>>) -> Seq<char> {
    "FFmpeg: no AV1 encoder from "@ + quoted_preference() + " could open. Last error: "@
        + match last {
        Some(e) => e,
        None => "(no probes attempted)"@,
    }
}

impl Probe {
    /// The names to try.
    pub closed spec fn names(self) -> Seq<Seq<char>> {
        texts(self.names@)
    }

    /// How many were tried.
    pub closed spec fn tried(self) -> int {
        self.next as int
    }

    /// What the last one failed with.
    pub closed spec fn last(self) -> Option<Seq<char>> {
        match self.last_error {
            Some(e) => Some(e@),
            None => None,
        }
    }

    /// No more were tried than there are.
    pub closed spec fn wf(self) -> bool {
        self.next <= self.names@.len()
    }

    /// Start trying.
    pub fn new(named: Option<&str>) -> (p: Self)
        ensures
            p.wf(),
            p.tried() == 0,
            p.last() is None,
            p.names() == (match named {
                Some(n) => seq![n@],
                None => preference_labels(),
            }),
    {
        Probe { names: av1_encoder_preference(named), next: 0, last_error: None }
    }

    /// Start trying where only the device of this vendor may be used, or none.
    pub fn bound(named: Option<&str>, device: Option<GpuVendor>) -> (p: Self)
        ensures
            p.wf(),
            p.tried() == 0,
            p.last() is None,
            p.names() == (match named {
                Some(n) => seq![n@],
                None => bound_labels(device, preference().len() as int),
            }),
    {
        Probe { names: bound_encoder_preference(named, device), next: 0, last_error: None }
    }

    /// The name to try now, or what to say where none is left.
    pub fn next(&self) -> (r: Result<&str, String>)
        requires
            self.wf(),
        ensures
            match r {
                Ok(n) => self.tried() < self.names().len() && n@ == self.names()[self.tried()],
                Err(e) => self.tried() == self.names().len() && e@ == failure_text(self.last()),
            },
    {
        if self.next < self.names.len() {
            return Ok(self.names[self.next].as_str());
        }
        let mut out: String = String::new();
        out.append("FFmpeg: no AV1 encoder from ");
        out.append(
            "[\"av1_nvenc\", \"av1_amf\", \"av1_qsv\", \"av1_vaapi\", \"libsvtav1\", \"libaom-av1\", \"librav1e\"]",
        );
        out.append(" could open. Last error: ");
        match &self.last_error {
            Some(e) => {
                out.append(e.as_str());
            },
            None => {
                out.append("(no probes attempted)");
            },
        }
        assert(out@ =~= failure_text(self.last()));
        Err(out)
    }

    /// The encoder that was tried did not open.
    pub fn failed(&mut self, cause: &str)
        requires
            old(self).wf(),
            old(self).tried() < old(self).names().len(),
        ensures
            final(self).wf(),
            final(self).names() == old(self).names(),
            final(self).tried() == old(self).tried() + 1,
            final(self).last() == Some(old(self).names()[old(self).tried()] + ": "@ + cause@),
    {
        let n: usize = self.names.len();
        assert(self.next < n);
        let mut e: String = String::new();
        e.append(self.names[self.next].as_str());
        e.append(": ");
        e.append(cause);
        assert(e@ =~= self.names()[self.tried()] + ": "@ + cause@);
        self.last_error = Some(e);
        self.next = self.next + 1;
    }
}

/// An option and its value.
#[derive(Debug)]
pub struct CodecOption {
    pub key: &'static str,
    pub value: String,
}

/// Options in the order they are set.
#[derive(Debug)]
pub struct OptionList {
    pub items: Vec<CodecOption>,
}

impl View for OptionList {
    type V = Seq<(Seq<char>, Seq<char>)>;

    open spec fn view(&self) -> Seq<(Seq<char>, Seq<char>)> {
        self.items@.map_values(|o: CodecOption| (o.key@, o.value@))
    }
}

impl OptionList {
    fn new() -> (l: Self)
        ensures
            l@ == Seq::<(Seq<char>, Seq<char>)>::empty(),
    {
        let l: OptionList = OptionList { items: Vec::new() };
        assert(l@ =~= Seq::<(Seq<char>, Seq<char>)>::empty());
        l
    }

    fn set(&mut self, key: &'static str, value: &str)
        ensures
            final(self)@ == old(self)@.push((key@, value@)),
    {
        self.items.push(CodecOption { key, value: value.to_owned() });
        assert(self@ =~= old(self)@.push((key@, value@)));
    }

    fn set_number(&mut self, key: &'static str, value: u128)
        ensures
            final(self)@ == old(self)@.push((key@, text::dec(value as nat))),
    {
        self.items.push(CodecOption { key, value: decimal(value) });
        assert(self@ =~= old(self)@.push((key@, text::dec(value as nat))));
    }
}

/// The tuning rows an encode was given, one per table.
#[derive(Debug, Clone, Copy)]
pub struct TuningRows {
    pub nvenc: NvencParams,
    pub amf: AmfAv1Params,
    pub qsv: QsvParams,
    pub rav1e: Rav1eParams,
    /// The `cq-level` of the reference encoder.
    pub libaom_cq: u8,
}

/// Options of NVENC.
pub open spec fn nvenc_options(tier: SpeedTier, p: NvencParams) -> Seq<(Seq<char>, Seq<char>)> {
    seq![
        ("cq"@, text::dec(p.cq as nat)),
        (
            "rc"@,
            match p.rc_mode {
                NvencRateControl::ConstQp => "constqp"@,
                NvencRateControl::VbrTargetQuality => "vbr"@,
            },
        ),
        (
            "preset"@,
            match tier {
                SpeedTier::Draft => "p5"@,
                SpeedTier::Standard => "p6"@,
                SpeedTier::Archive => "p7"@,
            },
        ),
        ("tune"@, "hq"@),
    ] + (if p.lookahead_depth > 0 {
        seq![("rc-lookahead"@, text::dec(p.lookahead_depth as nat))]
    } else {
        seq![]
    }) + (if p.aq_strength > 0 {
        seq![("spatial_aq"@, "1"@), ("aq-strength"@, text::dec(p.aq_strength as nat))]
    } else {
        seq![]
    }) + seq![
        ("tile-columns"@, text::dec(p.num_tile_columns as nat)),
        ("tile-rows"@, text::dec(p.num_tile_rows as nat)),
    ]
}

/// Options of AMF.
pub open spec fn amf_options(p: AmfAv1Params) -> Seq<(Seq<char>, Seq<char>)> {
    seq![
        ("qp_i"@, text::dec(p.q_index_intra as nat)),
        ("qp_p"@, text::dec(p.q_index_inter as nat)),
        (
            "rc"@,
            match p.rc_mode {
                AmfRateControl::Cqp => "cqp"@,
                AmfRateControl::QualityVbr => "qvbr"@,
            },
        ),
    ] + (if p.rc_mode == AmfRateControl::QualityVbr {
        seq![("qvbr_quality_level"@, text::dec(p.qvbr_quality as nat))]
    } else {
        seq![]
    }) + seq![
        (
            "quality"@,
            match p.quality_preset {
                AmfQualityPreset::HighQuality | AmfQualityPreset::Quality => "quality"@,
                AmfQualityPreset::Balanced => "balanced"@,
                AmfQualityPreset::Speed => "speed"@,
            },
        ),
    ]
}

/// Options of QSV.
pub open spec fn qsv_options(p: QsvParams) -> Seq<(Seq<char>, Seq<char>)> {
    seq![
        match p.rc_mode {
            QsvRateControl::Icq => ("global_quality"@, text::dec(p.icq_quality as nat)),
            QsvRateControl::Cqp => ("q"@, text::dec(p.qp_i as nat)),
        },
        (
            "preset"@,
            if 1 <= p.target_usage <= 2 {
                "slow"@
            } else if 3 <= p.target_usage <= 4 {
                "medium"@
            } else {
                "veryfast"@
            },
        ),
    ]
}

/// Options of VAAPI: from full HD up the quantiser of the AMF table, below it
/// the low byte of the QSV table's.
pub open spec fn vaapi_options(width: u32, amf: AmfAv1Params, qsv: QsvParams) -> Seq<
    (Seq<char>, Seq<char>),
> {
    seq![
        (
            "qp"@,
            text::dec(
                (if width >= 1920 {
                    amf.q_index_intra as int
                } else {
                    qsv.qp_i as int % 256
                }) as nat,
            ),
        ),
        ("rc_mode"@, "CQP"@),
    ]
}

/// Options of SVT-AV1.
pub open spec fn svt_options(tier: SpeedTier, cq: u8) -> Seq<(Seq<char>, Seq<char>)> {
    seq![
        ("crf"@, text::dec(cq as nat)),
        (
            "preset"@,
            match tier {
                SpeedTier::Draft => "10"@,
                SpeedTier::Standard => "7"@,
                SpeedTier::Archive => "4"@,
            },
        ),
    ]
}

/// Options of libaom: a bit rate of zero selects constant quality.
pub open spec fn aom_options(tier: SpeedTier, cq: u8) -> Seq<(Seq<char>, Seq<char>)> {
    seq![
        ("crf"@, text::dec(cq as nat)),
        ("b:v"@, "0"@),
        (
            "cpu-used"@,
            match tier {
                SpeedTier::Draft => "8"@,
                SpeedTier::Standard => "4"@,
                SpeedTier::Archive => "2"@,
            },
        ),
    ]
}

/// Options of rav1e.
pub open spec fn rav1e_options(p: Rav1eParams) -> Seq<(Seq<char>, Seq<char>)> {
    seq![
        ("qp"@, text::dec(p.quantizer as nat)),
        ("speed"@, text::dec(p.speed_preset as nat)),
        ("tile-rows"@, text::dec(p.tile_rows as nat)),
        ("tile-columns"@, text::dec(p.tile_cols as nat)),
    ]
}

/// The options of an encoder.
pub open spec fn options_of(e: LibavEncoder, c: EncoderConfig, t: TuningRows) -> Seq<
    (Seq<char>, Seq<char>),
> {
    match e {
        LibavEncoder::Nvenc => nvenc_options(c.tier, t.nvenc),
        LibavEncoder::Amf => amf_options(t.amf),
        LibavEncoder::Qsv => qsv_options(t.qsv),
        LibavEncoder::Vaapi => vaapi_options(c.width, t.amf, t.qsv),
        LibavEncoder::SvtAv1 => svt_options(c.tier, t.libaom_cq),
        LibavEncoder::Aom => aom_options(c.tier, t.libaom_cq),
        LibavEncoder::Rav1e => rav1e_options(t.rav1e),
    }
}

fn set_nvenc(l: &mut OptionList, tier: SpeedTier, p: &NvencParams)
    requires
        old(l)@.len() == 0,
    ensures
        final(l)@ == nvenc_options(tier, *p),
{
    l.set_number("cq", p.cq as u128);
    l.set(
        "rc",
        match p.rc_mode {
            NvencRateControl::ConstQp => "constqp",
            NvencRateControl::VbrTargetQuality => "vbr",
        },
    );
    l.set(
        "preset",
        match tier {
            SpeedTier::Draft => "p5",
            SpeedTier::Standard => "p6",
            SpeedTier::Archive => "p7",
        },
    );
    l.set("tune", "hq");
    if p.lookahead_depth > 0 {
        l.set_number("rc-lookahead", p.lookahead_depth as u128);
    }
    if p.aq_strength > 0 {
        l.set("spatial_aq", "1");
        l.set_number("aq-strength", p.aq_strength as u128);
    }
    l.set_number("tile-columns", p.num_tile_columns as u128);
    l.set_number("tile-rows", p.num_tile_rows as u128);
    assert(l@ =~= nvenc_options(tier, *p));
}

fn set_amf(l: &mut OptionList, p: &AmfAv1Params)
    requires
        old(l)@.len() == 0,
    ensures
        final(l)@ == amf_options(*p),
{
    l.set_number("qp_i", p.q_index_intra as u128);
    l.set_number("qp_p", p.q_index_inter as u128);
    l.set(
        "rc",
        match p.rc_mode {
            AmfRateControl::Cqp => "cqp",
            AmfRateControl::QualityVbr => "qvbr",
        },
    );
    if p.rc_mode == AmfRateControl::QualityVbr {
        l.set_number("qvbr_quality_level", p.qvbr_quality as u128);
    }
    l.set(
        "quality",
        match p.quality_preset {
            AmfQualityPreset::HighQuality | AmfQualityPreset::Quality => "quality",
            AmfQualityPreset::Balanced => "balanced",
            AmfQualityPreset::Speed => "speed",
        },
    );
    assert(l@ =~= amf_options(*p));
}

fn set_qsv(l: &mut OptionList, p: &QsvParams)
    requires
        old(l)@.len() == 0,
    ensures
        final(l)@ == qsv_options(*p),
{
    match p.rc_mode {
        QsvRateControl::Icq => {
            l.set_number("global_quality", p.icq_quality as u128);
        },
        QsvRateControl::Cqp => {
            l.set_number("q", p.qp_i as u128);
        },
    }
    let usage: u16 = p.target_usage;
    l.set(
        "preset",
        if 1 <= usage && usage <= 2 {
            "slow"
        } else if 3 <= usage && usage <= 4 {
            "medium"
        } else {
            "veryfast"
        },
    );
    assert(l@ =~= qsv_options(*p));
}

/// The rows for a configuration. The reference encoder's level is the target's
/// own; only for a VMAF score, which has none, is it `vmaf_cq`.
pub fn tuning_rows(
    c: &EncoderConfig,
    nvenc: NvencParams,
    amf: AmfAv1Params,
    qsv: QsvParams,
    rav1e: Rav1eParams,
    vmaf_cq: u8,
) -> (t: TuningRows)
    ensures
        t == (TuningRows {
            nvenc,
            amf,
            qsv,
            rav1e,
            libaom_cq: match tuning::libaom_cq(c.target) {
                Some(cq) => cq,
                None => vmaf_cq,
            },
        }),
{
    let libaom_cq: u8 = match libaom_cq_for_target(c.target) {
        Some(cq) => cq,
        None => vmaf_cq,
    };
    TuningRows { nvenc, amf, qsv, rav1e, libaom_cq }
}

/// The options of an encoder, from the tuning rows, so that an encode lands at
/// the quality the same target gives on every other path. An encoder that is
/// not one of those in use gets none.
pub fn set_quality_opts(name: &str, c: &EncoderConfig, t: &TuningRows) -> (l: OptionList)
    ensures
        forall|e: LibavEncoder| name@ == #[trigger] e.label() ==> l@ == options_of(e, *c, *t),
        (forall|e: LibavEncoder| name@ != #[trigger] e.label()) ==> l@.len() == 0,
{
    let mut l: OptionList = OptionList::new();
    let e: LibavEncoder = match encoder_named(name) {
        Some(e) => e,
        None => {
            return l;
        },
    };
    match e {
        LibavEncoder::Nvenc => {
            set_nvenc(&mut l, c.tier, &t.nvenc);
        },
        LibavEncoder::Amf => {
            set_amf(&mut l, &t.amf);
        },
        LibavEncoder::Qsv => {
            set_qsv(&mut l, &t.qsv);
        },
        LibavEncoder::Vaapi => {
            let q: u16 = if c.width >= 1920 {
                t.amf.q_index_intra as u16
            } else {
                t.qsv.qp_i % 256
            };
            l.set_number("qp", q as u128);
            l.set("rc_mode", "CQP");
            assert(l@ =~= vaapi_options(c.width, t.amf, t.qsv));
        },
        LibavEncoder::SvtAv1 => {
            l.set_number("crf", t.libaom_cq as u128);
            l.set(
                "preset",
                match c.tier {
                    SpeedTier::Draft => "10",
                    SpeedTier::Standard => "7",
                    SpeedTier::Archive => "4",
                },
            );
            assert(l@ =~= svt_options(c.tier, t.libaom_cq));
        },
        LibavEncoder::Aom => {
            l.set_number("crf", t.libaom_cq as u128);
            l.set("b:v", "0");
            l.set(
                "cpu-used",
                match c.tier {
                    SpeedTier::Draft => "8",
                    SpeedTier::Standard => "4",
                    SpeedTier::Archive => "2",
                },
            );
            assert(l@ =~= aom_options(c.tier, t.libaom_cq));
        },
        LibavEncoder::Rav1e => {
            l.set_number("qp", t.rav1e.quantizer as u128);
            l.set_number("speed", t.rav1e.speed_preset as u128);
            l.set_number("tile-rows", t.rav1e.tile_rows as u128);
            l.set_number("tile-columns", t.rav1e.tile_cols as u128);
            assert(l@ =~= rav1e_options(t.rav1e));
        },
    }
    proof {
        assert(l@ == options_of(e, *c, *t));
        assert forall|o: LibavEncoder| name@ == #[trigger] o.label() implies l@ == options_of(
            o,
            *c,
            *t,
        ) by {
            names_are_told_apart(e, o);
        }
    }
    l
}

/// The reference encoder and SVT-AV1 are asked for the same level, which is
/// the reference's own: one target, one band of quality.
pub proof fn software_encoders_share_the_reference_level(c: EncoderConfig, t: TuningRows)
    ensures
        options_of(LibavEncoder::SvtAv1, c, t)[0] == ("crf"@, text::dec(t.libaom_cq as nat)),
        options_of(LibavEncoder::Aom, c, t)[0] == options_of(LibavEncoder::SvtAv1, c, t)[0],
{
}

/// Colour primaries libavcodec is told.
#[derive(Debug, Clone, Copy, PartialEq, Eq, Structural)]
pub enum AvPrimaries {
    Bt709,
    Bt470Bg,
    Smpte170M,
    Bt2020,
}

/// Transfer libavcodec is told.
#[derive(Debug, Clone, Copy, PartialEq, Eq, Structural)]
pub enum AvTransfer {
    Bt709,
    Smpte2084,
    AribStdB67,
}

/// Matrix libavcodec is told.
#[derive(Debug, Clone, Copy, PartialEq, Eq, Structural)]
pub enum AvMatrix {
    Bt709,
    Smpte170M,
    Bt2020Ncl,
    Bt2020Cl,
}

/// The primaries of a code; one that is not known counts as BT.709.
pub fn av_color_primaries(p: u8) -> (r: AvPrimaries)
    ensures
        r == primaries_of(p),
{
    match p {
        5 => AvPrimaries::Bt470Bg,
        6 => AvPrimaries::Smpte170M,
        9 => AvPrimaries::Bt2020,
        _ => AvPrimaries::Bt709,
    }
}

/// The primaries of a code; one that is not known counts as BT.709.
pub open spec fn primaries_of(p: u8) -> AvPrimaries {
    if p == 5 {
        AvPrimaries::Bt470Bg
    } else if p == 6 {
        AvPrimaries::Smpte170M
    } else if p == 9 {
        AvPrimaries::Bt2020
    } else {
        AvPrimaries::Bt709
    }
}

/// The transfer that is signalled: the HDR ones verbatim, any other as BT.709.
pub open spec fn transfer_of(t: TransferFn) -> AvTransfer {
    match t {
        TransferFn::St2084 => AvTransfer::Smpte2084,
        TransferFn::AribStdB67 => AvTransfer::AribStdB67,
        _ => AvTransfer::Bt709,
    }
}

/// The transfer that is signalled.
pub fn av_color_trc(t: TransferFn) -> (r: AvTransfer)
    ensures
        r == transfer_of(t),
{
    match transfer_to_cicp(t) {
        16 => AvTransfer::Smpte2084,
        18 => AvTransfer::AribStdB67,
        _ => AvTransfer::Bt709,
    }
}

/// The matrix of a code; one that is not known counts as BT.709.
pub open spec fn matrix_of(m: u8) -> AvMatrix {
    if m == 6 {
        AvMatrix::Smpte170M
    } else if m == 9 {
        AvMatrix::Bt2020Ncl
    } else if m == 10 {
        AvMatrix::Bt2020Cl
    } else {
        AvMatrix::Bt709
    }
}

/// The matrix of a code; one that is not known counts as BT.709.
pub fn av_color_space(m: u8) -> (r: AvMatrix)
    ensures
        r == matrix_of(m),
{
    match m {
        6 => AvMatrix::Smpte170M,
        9 => AvMatrix::Bt2020Ncl,
        10 => AvMatrix::Bt2020Cl,
        _ => AvMatrix::Bt709,
    }
}

/// What a codec context is given. The time base is one over the frame rate.
#[derive(Debug, Clone, Copy, PartialEq, Eq, Structural)]
pub struct ContextFields {
    pub width: i32,
    pub height: i32,
    /// Whole frames per second.
    pub framerate: i32,
    pub gop_size: i32,
    pub bit_rate: i64,
    pub primaries: AvPrimaries,
    pub transfer: AvTransfer,
    pub matrix: AvMatrix,
    pub full_range: bool,
}

/// A 32-bit word as a signed number.
pub open spec fn signed_word(v: u32) -> int {
    if v < 0x8000_0000 {
        v as int
    } else {
        v - 0x1_0000_0000
    }
}

fn signed(v: u32) -> (r: i32)
    ensures
        r == signed_word(v),
{
    if v < 0x8000_0000 {
        v as i32
    } else {
        (v as i64 - 0x1_0000_0000) as i32
    }
}

/// What a codec context is given.
pub open spec fn context_of(c: EncoderConfig) -> ContextFields {
    ContextFields {
        width: signed_word(c.width) as i32,
        height: signed_word(c.height) as i32,
        framerate: rate::min_int(
            rate::round_div(c.frame_rate.at_least_one(), 1_000_000_000),
            i32::MAX as int,
        ) as i32,
        gop_size: signed_word(rate::max_int(c.keyframe_interval as int, 1) as u32) as i32,
        bit_rate: rate::max_int(1_500_000, c.width * c.height / 200) as i64,
        primaries: primaries_of(c.color_metadata.colour_primaries),
        transfer: transfer_of(c.color_metadata.transfer),
        matrix: matrix_of(c.color_metadata.matrix_coefficients),
        full_range: c.color_metadata.full_range,
    }
}

/// What a codec context is given.
pub fn context_fields(c: &EncoderConfig) -> (f: ContextFields)
    ensures
        f == context_of(*c),
{
    let nanos: u64 = if c.frame_rate.nanos < 1_000_000_000 {
        1_000_000_000
    } else {
        c.frame_rate.nanos
    };
    let fps: u128 = (2 * nanos as u128 + 1_000_000_000) / 2_000_000_000;
    proof {
        assert(0 <= c.width * c.height <= 0xffff_ffff * 0xffff_ffff) by (nonlinear_arith)
            requires
                0 <= c.width <= 0xffff_ffff,
                0 <= c.height <= 0xffff_ffff,
        ;
    }
    let area: u64 = c.width as u64 * c.height as u64 / 200;
    ContextFields {
        width: signed(c.width),
        height: signed(c.height),
        framerate: if fps > 0x7fff_ffff {
            0x7fff_ffff
        } else {
            fps as i32
        },
        gop_size: signed(
            if c.keyframe_interval < 1 {
                1
            } else {
                c.keyframe_interval
            },
        ),
        bit_rate: if area < 1_500_000 {
            1_500_000
        } else {
            area as i64
        },
        primaries: av_color_primaries(c.color_metadata.colour_primaries),
        transfer: av_color_trc(c.color_metadata.transfer),
        matrix: av_color_space(c.color_metadata.matrix_coefficients),
        full_range: c.color_metadata.full_range,
    }
}

/// The number that ends a list of pixel formats.
pub const AV_PIX_FMT_NONE: i32 = -1;

/// The pixel format an encoder is fed: the wanted one where the encoder lists
/// it or lists nothing at all, else the first it lists.
pub open spec fn input_format(listed: Option<Seq<i32>>, wanted: i32) -> i32 {
    match listed {
        None => wanted,
        Some(l) => if l.contains(wanted) {
            wanted
        } else if l.len() > 0 {
            l[0]
        } else {
            AV_PIX_FMT_NONE
        },
    }
}

/// The pixel format an encoder is fed. `listed` is the encoder's list without
/// its end mark.
pub fn encoder_input_fmt(listed: Option<&[i32]>, wanted: i32) -> (f: i32)
    ensures
        f == input_format(
            match listed {
                Some(l) => Some(l@),
                None => None,
            },
            wanted,
        ),
{
    let l: &[i32] = match listed {
        None => {
            return wanted;
        },
        Some(l) => l,
    };
    let mut i: usize = 0;
    while i < l.len()
        invariant
            i <= l@.len(),
            listed == Some(l),
            forall|j: int| 0 <= j < i ==> #[trigger] l@[j] != wanted,
        decreases l@.len() - i,
    {
        if l[i] == wanted {
            assert(l@.contains(wanted));
            return wanted;
        }
        i = i + 1;
    }
    assert(!l@.contains(wanted));
    if l.len() > 0 {
        l[0]
    } else {
        AV_PIX_FMT_NONE
    }
}

/// Whether an option is among those set, with this value.
pub open spec fn given(s: Seq<(Seq<char>, Seq<char>)>, key: Seq<char>, value: Seq<char>) -> bool {
    exists|i: int| 0 <= i < s.len() && #[trigger] s[i] == (key, value)
}

/// NVENC is given the row's quantiser, mode, tiles and, where they are not zero,
/// lookahead and quantiser adaptation, the tier's preset, and the high-quality
/// tuning.
pub proof fn nvenc_is_given_its_row(tier: SpeedTier, p: NvencParams)
    ensures
        ({
            let s = nvenc_options(tier, p);
            &&& given(s, "cq"@, text::dec(p.cq as nat))
            &&& p.rc_mode == NvencRateControl::ConstQp ==> given(s, "rc"@, "constqp"@)
            &&& p.rc_mode == NvencRateControl::VbrTargetQuality ==> given(s, "rc"@, "vbr"@)
            &&& tier == SpeedTier::Draft ==> given(s, "preset"@, "p5"@)
            &&& tier == SpeedTier::Standard ==> given(s, "preset"@, "p6"@)
            &&& tier == SpeedTier::Archive ==> given(s, "preset"@, "p7"@)
            &&& given(s, "tune"@, "hq"@)
            &&& p.lookahead_depth > 0 ==> given(
                s,
                "rc-lookahead"@,
                text::dec(p.lookahead_depth as nat),
            )
            &&& p.aq_strength > 0 ==> given(s, "spatial_aq"@, "1"@) && given(
                s,
                "aq-strength"@,
                text::dec(p.aq_strength as nat),
            )
            &&& given(s, "tile-columns"@, text::dec(p.num_tile_columns as nat))
            &&& given(s, "tile-rows"@, text::dec(p.num_tile_rows as nat))
            &&& s.len() == 6 + (if p.lookahead_depth > 0 {
                1int
            } else {
                0
            }) + (if p.aq_strength > 0 {
                2int
            } else {
                0
            })
        }),
{
    let s = nvenc_options(tier, p);
    assert(s[0].0 == "cq"@ && s[1].0 == "rc"@ && s[2].0 == "preset"@ && s[3].0 == "tune"@);
    let n = s.len() as int;
    assert(s[n - 2].0 == "tile-columns"@ && s[n - 1].0 == "tile-rows"@);
    if p.lookahead_depth > 0 {
        assert(s[4].0 == "rc-lookahead"@);
    }
    if p.aq_strength > 0 {
        assert(s[n - 4].0 == "spatial_aq"@ && s[n - 3].0 == "aq-strength"@);
    }
}

/// AMF is given the row's quantisers, mode and preset, and the quality level
/// where the mode reads one.
pub proof fn amf_is_given_its_row(p: AmfAv1Params)
    ensures
        ({
            let s = amf_options(p);
            &&& given(s, "qp_i"@, text::dec(p.q_index_intra as nat))
            &&& given(s, "qp_p"@, text::dec(p.q_index_inter as nat))
            &&& p.rc_mode == AmfRateControl::Cqp ==> given(s, "rc"@, "cqp"@) && s.len() == 4
            &&& p.rc_mode == AmfRateControl::QualityVbr ==> given(s, "rc"@, "qvbr"@) && given(
                s,
                "qvbr_quality_level"@,
                text::dec(p.qvbr_quality as nat),
            ) && s.len() == 5
            &&& p.quality_preset == AmfQualityPreset::HighQuality || p.quality_preset
                == AmfQualityPreset::Quality ==> given(s, "quality"@, "quality"@)
            &&& p.quality_preset == AmfQualityPreset::Balanced ==> given(
                s,
                "quality"@,
                "balanced"@,
            )
            &&& p.quality_preset == AmfQualityPreset::Speed ==> given(s, "quality"@, "speed"@)
        }),
{
    let s = amf_options(p);
    assert(s[0].0 == "qp_i"@ && s[1].0 == "qp_p"@ && s[2].0 == "rc"@);
    assert(s[s.len() - 1].0 == "quality"@);
    if p.rc_mode == AmfRateControl::QualityVbr {
        assert(s[3].0 == "qvbr_quality_level"@);
    }
}

/// QSV is given the quality level or the intra quantiser, as its mode reads, and
/// the slower preset the smaller the row's target usage.
pub proof fn qsv_is_given_its_row(p: QsvParams)
    ensures
        ({
            let s = qsv_options(p);
            &&& s.len() == 2
            &&& p.rc_mode == QsvRateControl::Icq ==> given(
                s,
                "global_quality"@,
                text::dec(p.icq_quality as nat),
            )
            &&& p.rc_mode == QsvRateControl::Cqp ==> given(s, "q"@, text::dec(p.qp_i as nat))
            &&& p.target_usage == 1 || p.target_usage == 2 ==> given(s, "preset"@, "slow"@)
            &&& p.target_usage == 3 || p.target_usage == 4 ==> given(s, "preset"@, "medium"@)
            &&& p.target_usage == 0 || p.target_usage > 4 ==> given(s, "preset"@, "veryfast"@)
        }),
{
    let s = qsv_options(p);
    assert(s[1].0 == "preset"@);
    if p.rc_mode == QsvRateControl::Icq {
        assert(s[0].0 == "global_quality"@);
    } else {
        assert(s[0].0 == "q"@);
    }
}

/// VA-API codes at a constant quantiser: from 1920 columns up the AMF row's, and
/// below that the QSV row's.
pub proof fn vaapi_is_given_a_quantiser(width: u32, amf: AmfAv1Params, qsv: QsvParams)
    ensures
        given(vaapi_options(width, amf, qsv), "rc_mode"@, "CQP"@),
        width >= 1920 ==> given(
            vaapi_options(width, amf, qsv),
            "qp"@,
            text::dec(amf.q_index_intra as nat),
        ),
        width < 1920 && qsv.qp_i < 256 ==> given(
            vaapi_options(width, amf, qsv),
            "qp"@,
            text::dec(qsv.qp_i as nat),
        ),
        vaapi_options(width, amf, qsv).len() == 2,
{
    let s = vaapi_options(width, amf, qsv);
    assert(s[0].0 == "qp"@ && s[1].0 == "rc_mode"@);
}

/// The software encoders are given the reference level, or rav1e its row, and an
/// effort that grows from draft to archive; libaom is told to code to the level
/// and to no rate.
pub proof fn software_encoders_are_given_their_rows(tier: SpeedTier, cq: u8, p: Rav1eParams)
    ensures
        given(svt_options(tier, cq), "crf"@, text::dec(cq as nat)),
        tier == SpeedTier::Draft ==> given(svt_options(tier, cq), "preset"@, "10"@),
        tier == SpeedTier::Standard ==> given(svt_options(tier, cq), "preset"@, "7"@),
        tier == SpeedTier::Archive ==> given(svt_options(tier, cq), "preset"@, "4"@),
        given(aom_options(tier, cq), "crf"@, text::dec(cq as nat)),
        given(aom_options(tier, cq), "b:v"@, "0"@),
        tier == SpeedTier::Draft ==> given(aom_options(tier, cq), "cpu-used"@, "8"@),
        tier == SpeedTier::Standard ==> given(aom_options(tier, cq), "cpu-used"@, "4"@),
        tier == SpeedTier::Archive ==> given(aom_options(tier, cq), "cpu-used"@, "2"@),
        given(rav1e_options(p), "qp"@, text::dec(p.quantizer as nat)),
        given(rav1e_options(p), "speed"@, text::dec(p.speed_preset as nat)),
        given(rav1e_options(p), "tile-rows"@, text::dec(p.tile_rows as nat)),
        given(rav1e_options(p), "tile-columns"@, text::dec(p.tile_cols as nat)),
        svt_options(tier, cq).len() == 2,
        aom_options(tier, cq).len() == 3,
        rav1e_options(p).len() == 4,
{
    let v = svt_options(tier, cq);
    let a = aom_options(tier, cq);
    let r = rav1e_options(p);
    assert(v[0].0 == "crf"@ && v[1].0 == "preset"@);
    assert(a[0].0 == "crf"@ && a[1].0 == "b:v"@ && a[2].0 == "cpu-used"@);
    assert(r[0].0 == "qp"@ && r[1].0 == "speed"@ && r[2].0 == "tile-rows"@ && r[3].0
        == "tile-columns"@);
}

/// Every encoder is given options from its own maker's row.
pub proof fn options_come_from_the_encoders_own_row(c: EncoderConfig, t: TuningRows)
    ensures
        options_of(LibavEncoder::Nvenc, c, t) == nvenc_options(c.tier, t.nvenc),
        options_of(LibavEncoder::Amf, c, t) == amf_options(t.amf),
        options_of(LibavEncoder::Qsv, c, t) == qsv_options(t.qsv),
        options_of(LibavEncoder::Vaapi, c, t) == vaapi_options(c.width, t.amf, t.qsv),
        options_of(LibavEncoder::SvtAv1, c, t) == svt_options(c.tier, t.libaom_cq),
        options_of(LibavEncoder::Aom, c, t) == aom_options(c.tier, t.libaom_cq),
        options_of(LibavEncoder::Rav1e, c, t) == rav1e_options(t.rav1e),
{
}

/// Every encoder is tried once: NVENC, AMF, QSV and VA-API, then SVT-AV1,
/// libaom and rav1e.
pub proof fn the_order_of_trial(e: LibavEncoder, i: int)
    requires
        0 <= i < preference().len(),
        preference()[i] == e,
    ensures
        preference().len() == 7,
        i == match e {
            LibavEncoder::Nvenc => 0int,
            LibavEncoder::Amf => 1,
            LibavEncoder::Qsv => 2,
            LibavEncoder::Vaapi => 3,
            LibavEncoder::SvtAv1 => 4,
            LibavEncoder::Aom => 5,
            LibavEncoder::Rav1e => 6,
        },
{
}

/// A hardware encoder runs on its own maker's device alone, VA-API on AMD's and
/// Intel's; a software encoder runs anywhere.
pub proof fn encoders_run_on_their_makers_devices(e: LibavEncoder, device: Option<GpuVendor>)
    ensures
        !e.is_hardware() <==> e == LibavEncoder::SvtAv1 || e == LibavEncoder::Aom || e
            == LibavEncoder::Rav1e,
        !e.is_hardware() ==> e.runs_on(device),
        e.is_hardware() && device is None ==> !e.runs_on(device),
        e.runs_on(Some(GpuVendor::Nvidia)) <==> e == LibavEncoder::Nvenc || !e.is_hardware(),
        e.runs_on(Some(GpuVendor::Amd)) <==> e == LibavEncoder::Amf || e == LibavEncoder::Vaapi
            || !e.is_hardware(),
        e.runs_on(Some(GpuVendor::Intel)) <==> e == LibavEncoder::Qsv || e == LibavEncoder::Vaapi
            || !e.is_hardware(),
{
}

/// An encoder is bound exactly where it is hardware that can run on the device,
/// and by its own interface; hardware that cannot run there is never bound.
pub proof fn encoders_are_bound_by_their_own_interface(
    e: LibavEncoder,
    device: Option<GpuVendor>,
)
    ensures
        binding(e, device) == Binding::Unbound <==> e == LibavEncoder::SvtAv1 || e
            == LibavEncoder::Aom || e == LibavEncoder::Rav1e,
        binding(e, device) == Binding::By(DeviceKind::Cuda) <==> e == LibavEncoder::Nvenc && device
            == Some(GpuVendor::Nvidia),
        binding(e, device) == Binding::By(DeviceKind::D3d11) <==> e == LibavEncoder::Amf && device
            == Some(GpuVendor::Amd),
        binding(e, device) == Binding::By(DeviceKind::Qsv) <==> e == LibavEncoder::Qsv && device
            == Some(GpuVendor::Intel),
        binding(e, device) == Binding::By(DeviceKind::Vaapi) <==> e == LibavEncoder::Vaapi && (
        device == Some(GpuVendor::Amd) || device == Some(GpuVendor::Intel)),
{
}

/// A context describes the caller's stream: its size, the nearest whole frame
/// rate and keyframe interval, one at least, a bit rate of a two-hundredth of a
/// bit per pixel and second, a megabit and a half at least, and its colour.
pub proof fn the_context_is_the_callers(c: EncoderConfig)
    requires
        c.width < 0x8000_0000,
        c.height < 0x8000_0000,
        c.keyframe_interval < 0x8000_0000,
    ensures
        ({
            let f = context_of(c);
            &&& f.width == c.width && f.height == c.height
            &&& f.framerate >= 1
            &&& 1_000_000_000 <= c.frame_rate.nanos <= 2_000_000_000_000_000_000 ==> -500_000_000
                < f.framerate * 1_000_000_000 - c.frame_rate.nanos <= 500_000_000
            &&& c.frame_rate.nanos < 1_000_000_000 ==> f.framerate == 1
            &&& c.keyframe_interval == 0 ==> f.gop_size == 1
            &&& c.keyframe_interval > 0 ==> f.gop_size == c.keyframe_interval
            &&& f.bit_rate >= 1_500_000
            &&& f.bit_rate > 1_500_000 ==> 0 <= c.width * c.height - 200 * f.bit_rate < 200
            &&& f.bit_rate == 1_500_000 ==> c.width * c.height < 200 * 1_500_001
            &&& f.full_range == c.color_metadata.full_range
            &&& f.primaries == primaries_of(c.color_metadata.colour_primaries)
            &&& f.transfer == transfer_of(c.color_metadata.transfer)
            &&& f.matrix == matrix_of(c.color_metadata.matrix_coefficients)
        }),
{
    rate::rounding_is_to_the_nearest(c.frame_rate.at_least_one(), 1_000_000_000);
    let px = c.width * c.height;
    assert(0 <= px < 0x4000_0000_0000_0000) by (nonlinear_arith)
        requires
            px == c.width * c.height,
            c.width < 0x8000_0000,
            c.height < 0x8000_0000,
    ;
}

/// Colour codes that libavcodec knows are told as they are, and no other code is
/// told as one of them: primaries 5, 6 and 9, matrices 6, 9 and 10, and the two
/// HDR transfers. Everything else is BT.709.
pub proof fn known_colours_are_told_as_they_are(p: u8, t: TransferFn, m: u8)
    ensures
        primaries_of(p) == AvPrimaries::Bt470Bg <==> p == 5,
        primaries_of(p) == AvPrimaries::Smpte170M <==> p == 6,
        primaries_of(p) == AvPrimaries::Bt2020 <==> p == 9,
        transfer_of(t) == AvTransfer::Smpte2084 <==> t == TransferFn::St2084,
        transfer_of(t) == AvTransfer::AribStdB67 <==> t == TransferFn::AribStdB67,
        matrix_of(m) == AvMatrix::Smpte170M <==> m == 6,
        matrix_of(m) == AvMatrix::Bt2020Ncl <==> m == 9,
        matrix_of(m) == AvMatrix::Bt2020Cl <==> m == 10,
{
}

/// An encoder is never fed a format it does not list, where it lists any; the
/// wanted one is taken wherever it can be, and else the first of the list.
pub proof fn encoders_are_fed_what_they_list(listed: Option<Seq<i32>>, wanted: i32)
    ensures
        listed is None ==> input_format(listed, wanted) == wanted,
        listed matches Some(l) ==> {
            &&& l.len() > 0 ==> l.contains(input_format(listed, wanted))
            &&& l.contains(wanted) ==> input_format(listed, wanted) == wanted
            &&& l.len() > 0 && !l.contains(wanted) ==> input_format(listed, wanted) == l[0]
            &&& l.len() == 0 ==> input_format(listed, wanted) == -1
        },
{
    if listed is Some && listed->0.len() > 0 {
        assert(listed->0[0] == listed->0.first());
        assert(listed->0.contains(listed->0[0]));
    }
}

/// A word is handed over as the signed number of the same bits: itself below 2 to
/// the 31st, and 2 to the 32nd less from there on.
pub proof fn words_keep_their_bits(v: u32)
    ensures
        v < 0x8000_0000 ==> signed_word(v) == v,
        v >= 0x8000_0000 ==> signed_word(v) + 0x1_0000_0000 == v,
        -0x8000_0000 <= signed_word(v) < 0x8000_0000,
{
}

} // verus!
