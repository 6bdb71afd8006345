//! Putting the devices into I/O space.
use crate::c64host::C64Backend;
use crate::iomap::{DeviceState, IoMap, MapState, Window, IO_BASE};
use crate::machine::MachineConfig;
use vstd::prelude::*;

verus! {

/// The map with every device of this crate, each address with one owner: the IEC
/// processor and the audio mixer belong to the C64 port, the command interface to
/// the device that the C64 shares.
pub open spec fn all_installed<S>(m: MapState<S>) -> MapState<S> {
    crate::iec::installed_without_iec(
        crate::c64_install::installed_without_uci(crate::board::installed_without_mixer(m)),
    )
}

/// Who answers at `addr`: the device and the offset that it sees.
pub open spec fn answering<S>(m: MapState<S>, addr: u32) -> Option<(DeviceState<S>, u32)> {
    match m.resolved(addr) {
        Some((dev, off)) => Some((m.devices[dev as int], off)),
        None => None,
    }
}

/// Map every device of this crate: the board, the C64 port, the command interface,
/// the ACIA and the tape. No address gets two owners.
pub fn install_all<B: C64Backend>(map: &mut IoMap<B>, _cfg: &MachineConfig)
    requires
        old(map)@.valid(),
    ensures
        final(map)@ == all_installed(old(map)@),
        final(map)@.valid(),
        old(map)@.windows.len() == 0 ==> crate::iomap::one_owner(final(map)@),
        answering(final(map)@, 0x1002_8000) == Some(
            (DeviceState::<B::State>::C64(crate::c64_install::fresh_port()), 0x2_8000u32),
        ),
        answering(final(map)@, 0x1010_0500) == Some(
            (DeviceState::<B::State>::C64(crate::c64_install::fresh_port()), 0x10_0500u32),
        ),
        answering(final(map)@, 0x1004_4000) == Some((DeviceState::<B::State>::Uci, 0u32)),
{
    crate::board::install_without_mixer(map);
    crate::c64_install::install_without_uci(map);
    crate::iec::install_without_iec(map);
    proof {
        assert(map@.devices.len() == map.devices.len());
        where_windows_lie(old(map)@);
        if old(map)@.windows.len() == 0 {
            every_address_has_one_owner(old(map)@);
        }
        moved_windows_answer(old(map)@);
    }
}

spec fn window(base: u32, size: u32, dev: nat, origin: u32) -> Window {
    Window { base, size, dev: dev as usize, origin }
}

/// The windows that are added to a map with `d` devices.
spec fn added_windows(d: nat) -> Seq<Window> {
    seq![
        window(0x1010_0000, 0x100, d + 0, 0x1010_0000),
        window(0x1010_0100, 0x100, d + 1, 0x1010_0100),
        window(0x1010_0200, 0x100, d + 2, 0x1010_0200),
        window(0x1010_0600, 0x100, d + 3, 0x1010_0600),
        window(0x1010_0800, 0x100, d + 4, 0x1010_0800),
        window(0x1010_0900, 0x100, d + 5, 0x1010_0900),
        window(0x1020_0000, 0x100, d + 6, 0x1020_0000),
        window(0x1002_0000, 0x8000, d + 7, IO_BASE),
        window(0x1002_8000, 0x1000, d + 7, IO_BASE),
        window(0x1004_0000, 0x100, d + 7, IO_BASE),
        window(0x1005_0000, 0x10000, d + 7, IO_BASE),
        window(0x1010_0300, 0x100, d + 7, IO_BASE),
        window(0x1018_0000, 0x100, d + 7, IO_BASE),
        window(0x1018_0800, 0x800, d + 7, IO_BASE),
        window(0x1018_8000, 0x2000, d + 7, IO_BASE),
        window(0x1018_A000, 0x2000, d + 7, IO_BASE),
        window(0x1018_C000, 0x1000, d + 7, IO_BASE),
        window(0x1004_C000, 0x1000, d + 7, IO_BASE),
        window(0x1004_8000, 0x2000, d + 7, IO_BASE),
        window(0x1010_0500, 0x100, d + 7, IO_BASE),
        window(0x1004_2000, 0x1000, d + 8, 0x1004_2000),
        window(0x1004_6000, 0x800, d + 9, 0x1004_6000),
        window(0x1018_1000, 0x100, d + 10, 0x1018_1000),
        window(0x1018_1800, 0x100, d + 11, 0x1018_1800),
        window(0x1018_2000, 0x200, d + 12, 0x1018_2000),
        window(0x1018_4000, 0x2000, d + 13, 0x1018_4000),
        window(0x1004_4000, 0x1000, d + 14, 0x1004_4000),
        window(0x1004_A000, 0x1000, d + 15, 0x1004_A000),
        window(0x100A_0000, 0x1000, d + 16, 0x100A_0000),
        window(0x100C_0000, 0x1000, d + 17, 0x100C_0000),
    ]
}

/// Which of the added devices owns address `a`.
spec fn owner(a: u32) -> nat {
    if 0x1010_0000 <= a < 0x1010_0000 + 0x100 {
        0
    } else if 0x1010_0100 <= a < 0x1010_0100 + 0x100 {
        1
    } else if 0x1010_0200 <= a < 0x1010_0200 + 0x100 {
        2
    } else if 0x1010_0600 <= a < 0x1010_0600 + 0x100 {
        3
    } else if 0x1010_0800 <= a < 0x1010_0800 + 0x100 {
        4
    } else if 0x1010_0900 <= a < 0x1010_0900 + 0x100 {
        5
    } else if 0x1020_0000 <= a < 0x1020_0000 + 0x100 {
        6
    } else if 0x1002_0000 <= a < 0x1002_0000 + 0x8000 {
        7
    } else if 0x1002_8000 <= a < 0x1002_8000 + 0x1000 {
        7
    } else if 0x1004_0000 <= a < 0x1004_0000 + 0x100 {
        7
    } else if 0x1005_0000 <= a < 0x1005_0000 + 0x10000 {
        7
    } else if 0x1010_0300 <= a < 0x1010_0300 + 0x100 {
        7
    } else if 0x1018_0000 <= a < 0x1018_0000 + 0x100 {
        7
    } else if 0x1018_0800 <= a < 0x1018_0800 + 0x800 {
        7
    } else if 0x1018_8000 <= a < 0x1018_8000 + 0x2000 {
        7
    } else if 0x1018_A000 <= a < 0x1018_A000 + 0x2000 {
        7
    } else if 0x1018_C000 <= a < 0x1018_C000 + 0x1000 {
        7
    } else if 0x1004_C000 <= a < 0x1004_C000 + 0x1000 {
        7
    } else if 0x1004_8000 <= a < 0x1004_8000 + 0x2000 {
        7
    } else if 0x1010_0500 <= a < 0x1010_0500 + 0x100 {
        7
    } else if 0x1004_2000 <= a < 0x1004_2000 + 0x1000 {
        8
    } else if 0x1004_6000 <= a < 0x1004_6000 + 0x800 {
        9
    } else if 0x1018_1000 <= a < 0x1018_1000 + 0x100 {
        10
    } else if 0x1018_1800 <= a < 0x1018_1800 + 0x100 {
        11
    } else if 0x1018_2000 <= a < 0x1018_2000 + 0x200 {
        12
    } else if 0x1018_4000 <= a < 0x1018_4000 + 0x2000 {
        13
    } else if 0x1004_4000 <= a < 0x1004_4000 + 0x1000 {
        14
    } else if 0x1004_A000 <= a < 0x1004_A000 + 0x1000 {
        15
    } else if 0x100A_0000 <= a < 0x100A_0000 + 0x1000 {
        16
    } else if 0x100C_0000 <= a < 0x100C_0000 + 0x1000 {
        17
    } else {
        18
    }
}

proof fn where_windows_lie<S>(m: MapState<S>)
    ensures
        all_installed(m).windows == m.windows + added_windows(m.devices.len()),
        all_installed(m).devices.len() == m.devices.len() + 18,
        all_installed(m).devices[m.devices.len() as int + 7] == DeviceState::<S>::C64(
            crate::c64_install::fresh_port(),
        ),
        all_installed(m).devices[m.devices.len() as int + 14] == DeviceState::<S>::Uci,
{
    let windows = crate::c64_install::windows_without_uci();
    reveal_with_fuel(crate::c64_install::mapped_first, 14);
    assert(windows.len() == 13);
    assert(all_installed(m).windows =~= m.windows + added_windows(m.devices.len()));
}

/// On an empty map no address gets two owners.
pub proof fn every_address_has_one_owner<S>(m: MapState<S>)
    requires
        m.windows.len() == 0,
    ensures
        crate::iomap::one_owner(all_installed(m)),
{
    let d = m.devices.len();
    let all = all_installed(m);
    where_windows_lie(m);
    assert(all.windows =~= added_windows(d));
    assert forall|i: int, a: u32|
        0 <= i < all.windows.len() && #[trigger] all.windows[i].holds(a) implies all.windows[i].dev
        == (d + owner(a)) as usize by {}
}

/// Whatever was mapped before, the IEC processor and the mixer are the C64 port's
/// and the command interface is the shared one's.
pub proof fn moved_windows_answer<S>(m: MapState<S>)
    requires
        m.devices.len() + 18 <= usize::MAX,
    ensures
        answering(all_installed(m), 0x1002_8000) == Some(
            (DeviceState::<S>::C64(crate::c64_install::fresh_port()), 0x2_8000u32),
        ),
        answering(all_installed(m), 0x1010_0500) == Some(
            (DeviceState::<S>::C64(crate::c64_install::fresh_port()), 0x10_0500u32),
        ),
        answering(all_installed(m), 0x1004_4000) == Some((DeviceState::<S>::Uci, 0u32)),
{
    where_windows_lie(m);
    let (k, n) = (m.windows.len() as int, all_installed(m).windows.len());
    let windows = all_installed(m).windows;
    crate::iomap::the_last_holder_answers(windows, 0x1002_8000, n, k + 8);
    crate::iomap::the_last_holder_answers(windows, 0x1010_0500, n, k + 19);
    crate::iomap::the_last_holder_answers(windows, 0x1004_4000, n, k + 26);
}

} // verus!
