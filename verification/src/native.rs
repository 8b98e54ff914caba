//! Choice of the vendor SDK driver for a `native:<vendor>:<id>` device.
use vstd::prelude::*;

use crate::device::DeviceType;
use crate::device_id::{colon1, colon2, colon3, lemma_find_at, lemma_find_bounds};
use crate::text::{
    decimal_text, is_digit, lemma_decimal_text_parses, chars_of, concat2, find_char_from, find_from, parse_i32, parse_i32_range, parse_unsigned,
    parse_unsigned_range, str_eq, substring,
};

verus! {

/// The vendor driver to construct, with the identifier it takes.
#[derive(Debug, Clone)]
pub enum NativeDriver {
    ZwoCamera(i32),
    QhyCamera(String),
    PlayerOneCamera(i32),
    SvbonyCamera(i32),
    AtikCamera(i32),
    FliCamera(String),
    TouptekCamera(usize),
    MoravianCamera(u32),
    ZwoFocuser(i32),
    FliFocuser(String),
    ZwoFilterWheel(i32),
    QhyFilterWheel(String),
    FliFilterWheel(String),
    SkyWatcherMount(String),
    IOptronMount(String),
    OnStepMount(String),
    MeadeMount(String),
    LosmandyMount(String),
    TenMicronMount(String),
}

/// A driver choice with its identifier as a mathematical value.
pub enum NativeDriverView {
    ZwoCamera(int),
    QhyCamera(Seq<char>),
    PlayerOneCamera(int),
    SvbonyCamera(int),
    AtikCamera(int),
    FliCamera(Seq<char>),
    TouptekCamera(nat),
    MoravianCamera(nat),
    ZwoFocuser(int),
    FliFocuser(Seq<char>),
    ZwoFilterWheel(int),
    QhyFilterWheel(Seq<char>),
    FliFilterWheel(Seq<char>),
    SkyWatcherMount(Seq<char>),
    IOptronMount(Seq<char>),
    OnStepMount(Seq<char>),
    MeadeMount(Seq<char>),
    LosmandyMount(Seq<char>),
    TenMicronMount(Seq<char>),
}

impl View for NativeDriver {
    type V = NativeDriverView;

    open spec fn view(&self) -> NativeDriverView {
        match self {
            NativeDriver::ZwoCamera(n) => NativeDriverView::ZwoCamera(*n as int),
            NativeDriver::QhyCamera(s) => NativeDriverView::QhyCamera(s@),
            NativeDriver::PlayerOneCamera(n) => NativeDriverView::PlayerOneCamera(*n as int),
            NativeDriver::SvbonyCamera(n) => NativeDriverView::SvbonyCamera(*n as int),
            NativeDriver::AtikCamera(n) => NativeDriverView::AtikCamera(*n as int),
            NativeDriver::FliCamera(s) => NativeDriverView::FliCamera(s@),
            NativeDriver::TouptekCamera(n) => NativeDriverView::TouptekCamera(*n as nat),
            NativeDriver::MoravianCamera(n) => NativeDriverView::MoravianCamera(*n as nat),
            NativeDriver::ZwoFocuser(n) => NativeDriverView::ZwoFocuser(*n as int),
            NativeDriver::FliFocuser(s) => NativeDriverView::FliFocuser(s@),
            NativeDriver::ZwoFilterWheel(n) => NativeDriverView::ZwoFilterWheel(*n as int),
            NativeDriver::QhyFilterWheel(s) => NativeDriverView::QhyFilterWheel(s@),
            NativeDriver::FliFilterWheel(s) => NativeDriverView::FliFilterWheel(s@),
            NativeDriver::SkyWatcherMount(s) => NativeDriverView::SkyWatcherMount(s@),
            NativeDriver::IOptronMount(s) => NativeDriverView::IOptronMount(s@),
            NativeDriver::OnStepMount(s) => NativeDriverView::OnStepMount(s@),
            NativeDriver::MeadeMount(s) => NativeDriverView::MeadeMount(s@),
            NativeDriver::LosmandyMount(s) => NativeDriverView::LosmandyMount(s@),
            NativeDriver::TenMicronMount(s) => NativeDriverView::TenMicronMount(s@),
        }
    }
}

/// An `i32` identifier, or the given error text.
pub open spec fn i32_or(
    s: Seq<char>,
    make: spec_fn(int) -> NativeDriverView,
    err: Seq<char>,
) -> Result<NativeDriverView, Seq<char>> {
    match parse_i32(s) {
        Some(n) => Ok(make(n)),
        None => Err(err),
    }
}

/// Camera drivers (also used for the device types without typed storage):
/// `unknown` is the text put before an unknown vendor's name.
pub open spec fn camera_plan(vendor: Seq<char>, ident: Seq<char>, unknown: Seq<char>) -> Result<
    NativeDriverView,
    Seq<char>,
> {
    if vendor == "zwo"@ {
        i32_or(ident, |n: int| NativeDriverView::ZwoCamera(n), "Invalid ZWO camera ID"@)
    } else if vendor == "qhy"@ {
        Ok(NativeDriverView::QhyCamera(ident))
    } else if vendor == "player_one"@ {
        i32_or(
            ident,
            |n: int| NativeDriverView::PlayerOneCamera(n),
            "Invalid Player One camera ID"@,
        )
    } else if vendor == "svbony"@ {
        i32_or(ident, |n: int| NativeDriverView::SvbonyCamera(n), "Invalid SVBony camera ID"@)
    } else if vendor == "atik"@ {
        i32_or(ident, |n: int| NativeDriverView::AtikCamera(n), "Invalid Atik camera ID"@)
    } else if vendor == "fli"@ {
        Ok(NativeDriverView::FliCamera(ident))
    } else if vendor == "touptek"@ {
        match parse_unsigned(ident, usize::MAX as nat) {
            Some(n) => Ok(NativeDriverView::TouptekCamera(n)),
            None => Err("Invalid Touptek camera ID"@),
        }
    } else if vendor == "moravian"@ {
        match parse_unsigned(ident, 0xffff_ffff) {
            Some(n) => Ok(NativeDriverView::MoravianCamera(n)),
            None => Err("Invalid Moravian camera ID"@),
        }
    } else {
        Err(unknown + vendor)
    }
}

pub open spec fn focuser_plan(vendor: Seq<char>, ident: Seq<char>) -> Result<
    NativeDriverView,
    Seq<char>,
> {
    if vendor == "zwo"@ {
        i32_or(ident, |n: int| NativeDriverView::ZwoFocuser(n), "Invalid ZWO focuser ID"@)
    } else if vendor == "fli_focuser"@ {
        Ok(NativeDriverView::FliFocuser(ident))
    } else {
        Err("Unknown native focuser vendor: "@ + vendor)
    }
}

pub open spec fn filter_wheel_plan(vendor: Seq<char>, ident: Seq<char>) -> Result<
    NativeDriverView,
    Seq<char>,
> {
    if vendor == "zwo"@ {
        i32_or(ident, |n: int| NativeDriverView::ZwoFilterWheel(n), "Invalid ZWO filter wheel ID"@)
    } else if vendor == "qhy_cfw"@ {
        Ok(NativeDriverView::QhyFilterWheel(ident))
    } else if vendor == "fli_fw"@ {
        Ok(NativeDriverView::FliFilterWheel(ident))
    } else {
        Err("Unknown native filter wheel vendor: "@ + vendor)
    }
}

/// Mount drivers: the identifier is the serial port.
pub open spec fn mount_plan(vendor: Seq<char>, ident: Seq<char>) -> Result<
    NativeDriverView,
    Seq<char>,
> {
    if vendor == "skywatcher"@ {
        Ok(NativeDriverView::SkyWatcherMount(ident))
    } else if vendor == "ioptron"@ {
        Ok(NativeDriverView::IOptronMount(ident))
    } else if vendor == "onstep"@ || vendor == "pegasus"@ {
        Ok(NativeDriverView::OnStepMount(ident))
    } else if vendor == "meade"@ || vendor == "lx200"@ {
        Ok(NativeDriverView::MeadeMount(ident))
    } else if vendor == "losmandy"@ {
        Ok(NativeDriverView::LosmandyMount(ident))
    } else if vendor == "10micron"@ {
        Ok(NativeDriverView::TenMicronMount(ident))
    } else {
        Err("Unknown native mount vendor: "@ + vendor)
    }
}

/// The driver for a native device: the vendor and identifier are the second
/// and third `:`-separated parts of the id.
pub open spec fn native_plan_spec(device_type: DeviceType, id: Seq<char>) -> Result<
    NativeDriverView,
    Seq<char>,
> {
    if colon1(id) >= id.len() || colon2(id) >= id.len() {
        Err("Invalid native device ID format"@)
    } else {
        let vendor = id.subrange(colon1(id) + 1, colon2(id));
        let ident = id.subrange(colon2(id) + 1, colon3(id));
        match device_type {
            DeviceType::Camera => camera_plan(vendor, ident, "Unknown native camera vendor: "@),
            DeviceType::Focuser => focuser_plan(vendor, ident),
            DeviceType::FilterWheel => filter_wheel_plan(vendor, ident),
            DeviceType::Mount => mount_plan(vendor, ident),
            _ => camera_plan(vendor, ident, "Unknown native vendor: "@),
        }
    }
}

fn zwo_like(chars: &Vec<char>, from: usize, to: usize, err: &str, kind: u8) -> (r: Result<
    NativeDriver,
    String,
>)
    requires
        from <= to <= chars@.len(),
        kind < 6,
    ensures
        match r {
            Ok(d) => parse_i32(chars@.subrange(from as int, to as int)) is Some && d@ == (match kind {
                0 => NativeDriverView::ZwoCamera(parse_i32(chars@.subrange(from as int, to as int))->0),
                1 => NativeDriverView::PlayerOneCamera(parse_i32(chars@.subrange(from as int, to as int))->0),
                2 => NativeDriverView::SvbonyCamera(parse_i32(chars@.subrange(from as int, to as int))->0),
                3 => NativeDriverView::AtikCamera(parse_i32(chars@.subrange(from as int, to as int))->0),
                4 => NativeDriverView::ZwoFocuser(parse_i32(chars@.subrange(from as int, to as int))->0),
                _ => NativeDriverView::ZwoFilterWheel(parse_i32(chars@.subrange(from as int, to as int))->0),
            }),
            Err(m) => parse_i32(chars@.subrange(from as int, to as int)) is None && m@ == err@,
        },
{
    match parse_i32_range(chars, from, to) {
        Some(n) => Ok(
            if kind == 0 {
                NativeDriver::ZwoCamera(n)
            } else if kind == 1 {
                NativeDriver::PlayerOneCamera(n)
            } else if kind == 2 {
                NativeDriver::SvbonyCamera(n)
            } else if kind == 3 {
                NativeDriver::AtikCamera(n)
            } else if kind == 4 {
                NativeDriver::ZwoFocuser(n)
            } else {
                NativeDriver::ZwoFilterWheel(n)
            },
        ),
        None => Err(String::from_str(err)),
    }
}

fn camera_driver(
    id: &str,
    chars: &Vec<char>,
    vendor: &str,
    from: usize,
    to: usize,
    unknown: &str,
) -> (r: Result<NativeDriver, String>)
    requires
        chars@ == id@,
        from <= to <= chars@.len(),
    ensures
        match r {
            Ok(d) => camera_plan(vendor@, chars@.subrange(from as int, to as int), unknown@) == Ok::<
                NativeDriverView,
                Seq<char>,
            >(d@),
            Err(m) => camera_plan(vendor@, chars@.subrange(from as int, to as int), unknown@)
                == Err::<NativeDriverView, Seq<char>>(m@),
        },
{
    if str_eq(vendor, "zwo") {
        zwo_like(chars, from, to, "Invalid ZWO camera ID", 0)
    } else if str_eq(vendor, "qhy") {
        Ok(NativeDriver::QhyCamera(substring(id, from, to)))
    } else if str_eq(vendor, "player_one") {
        zwo_like(chars, from, to, "Invalid Player One camera ID", 1)
    } else if str_eq(vendor, "svbony") {
        zwo_like(chars, from, to, "Invalid SVBony camera ID", 2)
    } else if str_eq(vendor, "atik") {
        zwo_like(chars, from, to, "Invalid Atik camera ID", 3)
    } else if str_eq(vendor, "fli") {
        Ok(NativeDriver::FliCamera(substring(id, from, to)))
    } else if str_eq(vendor, "touptek") {
        match parse_unsigned_range(chars, from, to, usize::MAX as u64) {
            Some(n) => Ok(NativeDriver::TouptekCamera(n as usize)),
            None => Err(String::from_str("Invalid Touptek camera ID")),
        }
    } else if str_eq(vendor, "moravian") {
        match parse_unsigned_range(chars, from, to, 0xffff_ffff) {
            Some(n) => Ok(NativeDriver::MoravianCamera(n as u32)),
            None => Err(String::from_str("Invalid Moravian camera ID")),
        }
    } else {
        Err(concat2(unknown, vendor))
    }
}

/// The vendor driver for a `native:<vendor>:<id>` device of the given type.
pub fn plan_native_connection(device_type: DeviceType, device_id: &str) -> (r: Result<
    NativeDriver,
    String,
>)
    ensures
        match r {
            Ok(d) => native_plan_spec(device_type, device_id@) == Ok::<NativeDriverView, Seq<char>>(
                d@,
            ),
            Err(m) => native_plan_spec(device_type, device_id@) == Err::<
                NativeDriverView,
                Seq<char>,
            >(m@),
        },
{
    let s = chars_of(device_id);
    let c1 = find_char_from(&s, ':', 0);
    if c1 >= s.len() {
        return Err(String::from_str("Invalid native device ID format"));
    }
    let c2 = find_char_from(&s, ':', c1 + 1);
    if c2 >= s.len() {
        return Err(String::from_str("Invalid native device ID format"));
    }
    let c3 = find_char_from(&s, ':', c2 + 1);
    let vendor_s = substring(device_id, c1 + 1, c2);
    let vendor = vendor_s.as_str();
    let from = c2 + 1;
    let to = c3;
    match device_type {
        DeviceType::Camera => camera_driver(
            device_id,
            &s,
            vendor,
            from,
            to,
            "Unknown native camera vendor: ",
        ),
        DeviceType::Focuser => {
            if str_eq(vendor, "zwo") {
                zwo_like(&s, from, to, "Invalid ZWO focuser ID", 4)
            } else if str_eq(vendor, "fli_focuser") {
                Ok(NativeDriver::FliFocuser(substring(device_id, from, to)))
            } else {
                Err(concat2("Unknown native focuser vendor: ", vendor))
            }
        },
        DeviceType::FilterWheel => {
            if str_eq(vendor, "zwo") {
                zwo_like(&s, from, to, "Invalid ZWO filter wheel ID", 5)
            } else if str_eq(vendor, "qhy_cfw") {
                Ok(NativeDriver::QhyFilterWheel(substring(device_id, from, to)))
            } else if str_eq(vendor, "fli_fw") {
                Ok(NativeDriver::FliFilterWheel(substring(device_id, from, to)))
            } else {
                Err(concat2("Unknown native filter wheel vendor: ", vendor))
            }
        },
        DeviceType::Mount => {
            let port = substring(device_id, from, to);
            if str_eq(vendor, "skywatcher") {
                Ok(NativeDriver::SkyWatcherMount(port))
            } else if str_eq(vendor, "ioptron") {
                Ok(NativeDriver::IOptronMount(port))
            } else if str_eq(vendor, "onstep") || str_eq(vendor, "pegasus") {
                Ok(NativeDriver::OnStepMount(port))
            } else if str_eq(vendor, "meade") || str_eq(vendor, "lx200") {
                Ok(NativeDriver::MeadeMount(port))
            } else if str_eq(vendor, "losmandy") {
                Ok(NativeDriver::LosmandyMount(port))
            } else if str_eq(vendor, "10micron") {
                Ok(NativeDriver::TenMicronMount(port))
            } else {
                Err(concat2("Unknown native mount vendor: ", vendor))
            }
        },
        _ => camera_driver(device_id, &s, vendor, from, to, "Unknown native vendor: "),
    }
}

} // verus!

verus! {

/// The id of a native device: `native:<vendor>:<ident>`.
pub open spec fn native_id_text(vendor: Seq<char>, ident: Seq<char>) -> Seq<char> {
    "native:"@ + vendor + seq![':'] + ident
}

/// Lemma: a search that meets no `c` from `start` on runs to the end.
proof fn lemma_find_none(s: Seq<char>, c: char, start: int)
    requires
        0 <= start <= s.len(),
        forall|i: int| start <= i < s.len() ==> s[i] != c,
    ensures
        find_from(s, c, start) == s.len(),
    decreases s.len() - start,
{
    if start < s.len() {
        lemma_find_none(s, c, start + 1);
    }
}

/// Lemma: the parts of a native id built from a vendor and an identifier
/// without colons are that vendor and that identifier.
proof fn lemma_native_id_parts(vendor: Seq<char>, ident: Seq<char>)
    requires
        !vendor.contains(':'),
        !ident.contains(':'),
    ensures
        ({
            let id = native_id_text(vendor, ident);
            &&& colon1(id) < id.len()
            &&& colon2(id) < id.len()
            &&& id.subrange(colon1(id) + 1, colon2(id)) == vendor
            &&& id.subrange(colon2(id) + 1, colon3(id)) == ident
        }),
{
    reveal_strlit("native:");
    let id = native_id_text(vendor, ident);
    let v = vendor.len() as int;
    assert(id[6] == ':');
    assert forall|i: int| 0 <= i < 6 implies id[i] != ':' by {}
    lemma_find_at(id, ':', 0, 6);
    assert(id[7 + v] == ':');
    assert forall|i: int| 7 <= i < 7 + v implies id[i] != ':' by {
        assert(id[i] == vendor[i - 7]);
    }
    lemma_find_at(id, ':', 7, 7 + v);
    assert forall|i: int| 8 + v <= i < id.len() implies id[i] != ':' by {
        assert(id[i] == ident[i - 8 - v]);
    }
    lemma_find_none(id, ':', 8 + v);
    assert(id.subrange(7, 7 + v) =~= vendor);
    assert(id.subrange(8 + v, id.len() as int) =~= ident);
}

/// Law: a native mount is driven by its own vendor's driver on the serial
/// port given as the identifier: Sky-Watcher, iOptron, OnStep (also for
/// Pegasus), Meade (also for LX200), Losmandy and 10Micron.
pub proof fn law_native_mount_vendor_drivers(port: Seq<char>)
    requires
        !port.contains(':'),
    ensures
        native_plan_spec(DeviceType::Mount, native_id_text("skywatcher"@, port)) == Ok::<
            NativeDriverView,
            Seq<char>,
        >(NativeDriverView::SkyWatcherMount(port)),
        native_plan_spec(DeviceType::Mount, native_id_text("ioptron"@, port)) == Ok::<
            NativeDriverView,
            Seq<char>,
        >(NativeDriverView::IOptronMount(port)),
        native_plan_spec(DeviceType::Mount, native_id_text("onstep"@, port)) == Ok::<
            NativeDriverView,
            Seq<char>,
        >(NativeDriverView::OnStepMount(port)),
        native_plan_spec(DeviceType::Mount, native_id_text("pegasus"@, port)) == Ok::<
            NativeDriverView,
            Seq<char>,
        >(NativeDriverView::OnStepMount(port)),
        native_plan_spec(DeviceType::Mount, native_id_text("meade"@, port)) == Ok::<
            NativeDriverView,
            Seq<char>,
        >(NativeDriverView::MeadeMount(port)),
        native_plan_spec(DeviceType::Mount, native_id_text("lx200"@, port)) == Ok::<
            NativeDriverView,
            Seq<char>,
        >(NativeDriverView::MeadeMount(port)),
        native_plan_spec(DeviceType::Mount, native_id_text("losmandy"@, port)) == Ok::<
            NativeDriverView,
            Seq<char>,
        >(NativeDriverView::LosmandyMount(port)),
        native_plan_spec(DeviceType::Mount, native_id_text("10micron"@, port)) == Ok::<
            NativeDriverView,
            Seq<char>,
        >(NativeDriverView::TenMicronMount(port)),
{
    reveal_strlit("skywatcher");
    reveal_strlit("ioptron");
    reveal_strlit("onstep");
    reveal_strlit("pegasus");
    reveal_strlit("meade");
    reveal_strlit("lx200");
    reveal_strlit("losmandy");
    reveal_strlit("10micron");
    lemma_native_id_parts("skywatcher"@, port);
    lemma_native_id_parts("ioptron"@, port);
    lemma_native_id_parts("onstep"@, port);
    lemma_native_id_parts("pegasus"@, port);
    lemma_native_id_parts("meade"@, port);
    lemma_native_id_parts("lx200"@, port);
    lemma_native_id_parts("losmandy"@, port);
    lemma_native_id_parts("10micron"@, port);
    assert("pegasus"@[0] != "ioptron"@[0]);
    assert("pegasus"@ != "ioptron"@);
    assert("10micron"@[0] != "losmandy"@[0]);
    assert("10micron"@ != "losmandy"@);
    assert("lx200"@[0] != "meade"@[0]);
    assert("onstep"@.len() != "ioptron"@.len());
}


/// Lemma: decimal text holds no colon, and reads back as an `i32` and as an
/// unsigned number within any bound at least the number.
proof fn lemma_decimal_ident(n: nat)
    requires
        n <= 0x7fff_ffff,
    ensures
        !decimal_text(n).contains(':'),
        parse_i32(decimal_text(n)) == Some(n as int),
        parse_unsigned(decimal_text(n), 0xffff_ffff) == Some(n),
        parse_unsigned(decimal_text(n), usize::MAX as nat) == Some(n),
{
    let d = decimal_text(n);
    lemma_decimal_text_parses(n, 0x7fff_ffff);
    lemma_decimal_text_parses(n, 0xffff_ffff);
    lemma_decimal_text_parses(n, usize::MAX as nat);
    assert(is_digit(d[0]));
    assert forall|i: int| 0 <= i < d.len() implies d[i] != ':' by {
        assert(is_digit(d[i]));
    }
}

/// Law: a native camera, focuser or filter wheel is driven by its own
/// vendor's driver on the identifier given: a numeric index for ZWO, Player
/// One, SVBony, Atik, Touptek and Moravian, the text itself for QHY and FLI.
pub proof fn law_native_vendor_drivers(ident: Seq<char>, n: u32)
    requires
        !ident.contains(':'),
        n <= 0x7fff_ffff,
    ensures
        native_plan_spec(DeviceType::Camera, native_id_text("zwo"@, decimal_text(n as nat))) == Ok::<
            NativeDriverView,
            Seq<char>,
        >(NativeDriverView::ZwoCamera(n as int)),
        native_plan_spec(DeviceType::Camera, native_id_text("player_one"@, decimal_text(n as nat)))
            == Ok::<NativeDriverView, Seq<char>>(NativeDriverView::PlayerOneCamera(n as int)),
        native_plan_spec(DeviceType::Camera, native_id_text("svbony"@, decimal_text(n as nat))) == Ok::<
            NativeDriverView,
            Seq<char>,
        >(NativeDriverView::SvbonyCamera(n as int)),
        native_plan_spec(DeviceType::Camera, native_id_text("atik"@, decimal_text(n as nat))) == Ok::<
            NativeDriverView,
            Seq<char>,
        >(NativeDriverView::AtikCamera(n as int)),
        native_plan_spec(DeviceType::Camera, native_id_text("touptek"@, decimal_text(n as nat))) == Ok::<
            NativeDriverView,
            Seq<char>,
        >(NativeDriverView::TouptekCamera(n as nat)),
        native_plan_spec(DeviceType::Camera, native_id_text("moravian"@, decimal_text(n as nat))) == Ok::<
            NativeDriverView,
            Seq<char>,
        >(NativeDriverView::MoravianCamera(n as nat)),
        native_plan_spec(DeviceType::Camera, native_id_text("qhy"@, ident)) == Ok::<
            NativeDriverView,
            Seq<char>,
        >(NativeDriverView::QhyCamera(ident)),
        native_plan_spec(DeviceType::Camera, native_id_text("fli"@, ident)) == Ok::<
            NativeDriverView,
            Seq<char>,
        >(NativeDriverView::FliCamera(ident)),
        native_plan_spec(DeviceType::Focuser, native_id_text("zwo"@, decimal_text(n as nat))) == Ok::<
            NativeDriverView,
            Seq<char>,
        >(NativeDriverView::ZwoFocuser(n as int)),
        native_plan_spec(DeviceType::Focuser, native_id_text("fli_focuser"@, ident)) == Ok::<
            NativeDriverView,
            Seq<char>,
        >(NativeDriverView::FliFocuser(ident)),
        native_plan_spec(DeviceType::FilterWheel, native_id_text("zwo"@, decimal_text(n as nat)))
            == Ok::<NativeDriverView, Seq<char>>(NativeDriverView::ZwoFilterWheel(n as int)),
        native_plan_spec(DeviceType::FilterWheel, native_id_text("qhy_cfw"@, ident)) == Ok::<
            NativeDriverView,
            Seq<char>,
        >(NativeDriverView::QhyFilterWheel(ident)),
        native_plan_spec(DeviceType::FilterWheel, native_id_text("fli_fw"@, ident)) == Ok::<
            NativeDriverView,
            Seq<char>,
        >(NativeDriverView::FliFilterWheel(ident)),
{
    reveal_strlit("zwo");
    reveal_strlit("qhy");
    reveal_strlit("player_one");
    reveal_strlit("svbony");
    reveal_strlit("atik");
    reveal_strlit("fli");
    reveal_strlit("touptek");
    reveal_strlit("moravian");
    reveal_strlit("fli_focuser");
    reveal_strlit("qhy_cfw");
    reveal_strlit("fli_fw");
    let d = decimal_text(n as nat);
    lemma_decimal_ident(n as nat);
    lemma_native_id_parts("zwo"@, d);
    lemma_native_id_parts("player_one"@, d);
    lemma_native_id_parts("svbony"@, d);
    lemma_native_id_parts("atik"@, d);
    lemma_native_id_parts("touptek"@, d);
    lemma_native_id_parts("moravian"@, d);
    lemma_native_id_parts("qhy"@, ident);
    lemma_native_id_parts("fli"@, ident);
    lemma_native_id_parts("fli_focuser"@, ident);
    lemma_native_id_parts("qhy_cfw"@, ident);
    lemma_native_id_parts("fli_fw"@, ident);
    assert("qhy"@[0] != "zwo"@[0]);
    assert("fli"@[0] != "zwo"@[0] && "fli"@[0] != "qhy"@[0]);
    assert("atik"@ != "zwo"@);
    assert("qhy_cfw"@[0] != "touptek"@[0]);
}
} // verus!
