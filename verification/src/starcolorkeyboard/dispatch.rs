use vstd::prelude::*;
use wayland_client::protocol::{wl_compositor, wl_output, wl_seat, wl_shm};
use wayland_client::Proxy;
use wayland_protocols::xdg::shell::client::xdg_wm_base;
use wayland_protocols::xdg::xdg_output::zv1::client::zxdg_output_manager_v1;
use wayland_protocols_misc::zwp_virtual_keyboard_v1::client::zwp_virtual_keyboard_manager_v1;
use wayland_protocols_wlr::layer_shell::v1::client::zwlr_layer_shell_v1;

verus! {

/// The compositor globals that the keyboard binds.
#[derive(Debug, Clone, Copy, PartialEq, Eq, Structural)]
pub enum GlobalKind {
    Output,
    LayerShell,
    Compositor,
    Shm,
    Seat,
    WmBase,
    XdgOutputManager,
    VirtualKeyboardManager,
}

/// `wl_output::WlOutput::interface().name`: the interface name that the
/// protocol description gives `wl_output`.
#[verifier::external_body]
fn wl_output_name() -> (name: &'static str)
    ensures
        name@ == "wl_output"@,
{
    wl_output::WlOutput::interface().name
}

/// `zwlr_layer_shell_v1::ZwlrLayerShellV1::interface().name`: the interface
/// name that the wlr layer-shell protocol description gives its shell.
#[verifier::external_body]
fn layer_shell_name() -> (name: &'static str)
    ensures
        name@ == "zwlr_layer_shell_v1"@,
{
    zwlr_layer_shell_v1::ZwlrLayerShellV1::interface().name
}

/// `wl_compositor::WlCompositor::interface().name`: the interface name that
/// the protocol description gives `wl_compositor`.
#[verifier::external_body]
fn wl_compositor_name() -> (name: &'static str)
    ensures
        name@ == "wl_compositor"@,
{
    wl_compositor::WlCompositor::interface().name
}

/// `wl_shm::WlShm::interface().name`: the interface name that the protocol
/// description gives `wl_shm`.
#[verifier::external_body]
fn wl_shm_name() -> (name: &'static str)
    ensures
        name@ == "wl_shm"@,
{
    wl_shm::WlShm::interface().name
}

/// `wl_seat::WlSeat::interface().name`: the interface name that the protocol
/// description gives `wl_seat`.
#[verifier::external_body]
fn wl_seat_name() -> (name: &'static str)
    ensures
        name@ == "wl_seat"@,
{
    wl_seat::WlSeat::interface().name
}

/// `xdg_wm_base::XdgWmBase::interface().name`: the interface name that the
/// xdg-shell protocol description gives `xdg_wm_base`.
#[verifier::external_body]
fn xdg_wm_base_name() -> (name: &'static str)
    ensures
        name@ == "xdg_wm_base"@,
{
    xdg_wm_base::XdgWmBase::interface().name
}

/// `zxdg_output_manager_v1::ZxdgOutputManagerV1::interface().name`: the
/// interface name that the xdg-output protocol description gives its manager.
#[verifier::external_body]
fn xdg_output_manager_name() -> (name: &'static str)
    ensures
        name@ == "zxdg_output_manager_v1"@,
{
    zxdg_output_manager_v1::ZxdgOutputManagerV1::interface().name
}

/// `ZwpVirtualKeyboardManagerV1::interface().name`: the interface name that
/// the virtual-keyboard protocol description gives its manager.
#[verifier::external_body]
fn virtual_keyboard_manager_name() -> (name: &'static str)
    ensures
        name@ == "zwp_virtual_keyboard_manager_v1"@,
{
    zwp_virtual_keyboard_manager_v1::ZwpVirtualKeyboardManagerV1::interface().name
}

/// The global that an advertised interface name stands for, if the keyboard
/// binds it.
pub open spec fn global_kind_of(interface: Seq<char>) -> Option<GlobalKind> {
    if interface == "wl_output"@ {
        Some(GlobalKind::Output)
    } else if interface == "zwlr_layer_shell_v1"@ {
        Some(GlobalKind::LayerShell)
    } else if interface == "wl_compositor"@ {
        Some(GlobalKind::Compositor)
    } else if interface == "wl_shm"@ {
        Some(GlobalKind::Shm)
    } else if interface == "wl_seat"@ {
        Some(GlobalKind::Seat)
    } else if interface == "xdg_wm_base"@ {
        Some(GlobalKind::WmBase)
    } else if interface == "zxdg_output_manager_v1"@ {
        Some(GlobalKind::XdgOutputManager)
    } else if interface == "zwp_virtual_keyboard_manager_v1"@ {
        Some(GlobalKind::VirtualKeyboardManager)
    } else {
        None
    }
}

/// The interface name under which the compositor advertises a global.
pub open spec fn interface_name(kind: GlobalKind) -> Seq<char> {
    match kind {
        GlobalKind::Output => "wl_output"@,
        GlobalKind::LayerShell => "zwlr_layer_shell_v1"@,
        GlobalKind::Compositor => "wl_compositor"@,
        GlobalKind::Shm => "wl_shm"@,
        GlobalKind::Seat => "wl_seat"@,
        GlobalKind::WmBase => "xdg_wm_base"@,
        GlobalKind::XdgOutputManager => "zxdg_output_manager_v1"@,
        GlobalKind::VirtualKeyboardManager => "zwp_virtual_keyboard_manager_v1"@,
    }
}

/// A global is bound exactly when its interface name is, letter for letter,
/// the name of one of the globals the keyboard uses: every such name is bound
/// as its own global, and any other name (such as `wl_subcompositor`) is not
/// bound at all.
pub proof fn lemma_globals_match_exact_names(interface: Seq<char>, kind: GlobalKind)
    ensures
        global_kind_of(interface) == Some(kind) <==> interface == interface_name(kind),
        global_kind_of(interface) is None <==> (forall|k: GlobalKind|
            interface != #[trigger] interface_name(k)),
{
    reveal_strlit("wl_output");
    reveal_strlit("zwlr_layer_shell_v1");
    reveal_strlit("wl_compositor");
    reveal_strlit("wl_shm");
    reveal_strlit("wl_seat");
    reveal_strlit("xdg_wm_base");
    reveal_strlit("zxdg_output_manager_v1");
    reveal_strlit("zwp_virtual_keyboard_manager_v1");
    assert("wl_output"@.len() == 9);
    assert("zwlr_layer_shell_v1"@.len() == 19);
    assert("wl_compositor"@.len() == 13);
    assert("wl_shm"@.len() == 6);
    assert("wl_seat"@.len() == 7);
    assert("xdg_wm_base"@.len() == 11);
    assert("zxdg_output_manager_v1"@.len() == 22);
    assert("zwp_virtual_keyboard_manager_v1"@.len() == 31);
    if global_kind_of(interface) is None {
        assert forall|k: GlobalKind| interface != #[trigger] interface_name(k) by {
            match k {
                GlobalKind::Output => {},
                GlobalKind::LayerShell => {},
                GlobalKind::Compositor => {},
                GlobalKind::Shm => {},
                GlobalKind::Seat => {},
                GlobalKind::WmBase => {},
                GlobalKind::XdgOutputManager => {},
                GlobalKind::VirtualKeyboardManager => {},
            }
        }
    } else {
        let k = global_kind_of(interface)->0;
        assert(interface == interface_name(k));
    }
}

/// The version at which a global is bound, given the version the compositor
/// advertises: the window-manager base at version 1, every other global at
/// the advertised version.
pub open spec fn bind_version(kind: GlobalKind, advertised: u32) -> u32 {
    match kind {
        GlobalKind::WmBase => 1,
        _ => advertised,
    }
}

/// The kinds of input device a seat can have.
#[derive(Debug, Clone, Copy, PartialEq, Eq, Structural)]
pub enum SeatDevice {
    Pointer,
    Keyboard,
    Touch,
}

/// The bit of a seat's capability mask that says it has devices of a kind.
pub open spec fn seat_device_bit(device: SeatDevice) -> u32 {
    match device {
        SeatDevice::Pointer => 1,
        SeatDevice::Keyboard => 2,
        SeatDevice::Touch => 4,
    }
}

/// `wl_seat::Capability::{Pointer, Keyboard, Touch}.bits()`: the values that
/// the protocol description gives the `pointer`, `keyboard` and `touch`
/// entries of the `wl_seat.capability` enum.
#[verifier::external_body]
fn capability_bits(device: SeatDevice) -> (bits: u32)
    ensures
        bits == seat_device_bit(device),
{
    match device {
        SeatDevice::Pointer => wl_seat::Capability::Pointer.bits(),
        SeatDevice::Keyboard => wl_seat::Capability::Keyboard.bits(),
        SeatDevice::Touch => wl_seat::Capability::Touch.bits(),
    }
}

/// The input devices the keyboard asks a seat for.
#[derive(Debug, Clone, Copy, PartialEq, Eq, Structural)]
pub struct SeatDevices {
    pub keyboard: bool,
    pub pointer: bool,
    pub touch: bool,
}

/// Whether a capability mask has every bit of a device kind.
pub open spec fn has_device(capabilities: u32, device: SeatDevice) -> bool {
    capabilities & seat_device_bit(device) == seat_device_bit(device)
}

fn has_capability(capabilities: u32, device: SeatDevice) -> (has: bool)
    ensures
        has == has_device(capabilities, device),
{
    let bit = capability_bits(device);
    capabilities & bit == bit
}

/// The devices to ask a seat for, given its capability mask: each kind of
/// device the seat has.
pub fn seat_devices(capabilities: u32) -> (devices: SeatDevices)
    ensures
        devices.keyboard == has_device(capabilities, SeatDevice::Keyboard),
        devices.pointer == has_device(capabilities, SeatDevice::Pointer),
        devices.touch == has_device(capabilities, SeatDevice::Touch),
{
    SeatDevices {
        keyboard: has_capability(capabilities, SeatDevice::Keyboard),
        pointer: has_capability(capabilities, SeatDevice::Pointer),
        touch: has_capability(capabilities, SeatDevice::Touch),
    }
}

fn same_text(a: &str, b: &str) -> (same: bool)
    ensures
        same == (a@ == b@),
{
    a.to_owned() == b.to_owned()
}

/// Which global an advertised interface is, and the version to bind it at;
/// `None` for interfaces the keyboard does not use.
pub fn registry_global(interface: &str, version: u32) -> (bind: Option<(GlobalKind, u32)>)
    ensures
        bind == (match global_kind_of(interface@) {
            Some(kind) => Some((kind, bind_version(kind, version))),
            None => None,
        }),
{
    if same_text(interface, wl_output_name()) {
        Some((GlobalKind::Output, version))
    } else if same_text(interface, layer_shell_name()) {
        Some((GlobalKind::LayerShell, version))
    } else if same_text(interface, wl_compositor_name()) {
        Some((GlobalKind::Compositor, version))
    } else if same_text(interface, wl_shm_name()) {
        Some((GlobalKind::Shm, version))
    } else if same_text(interface, wl_seat_name()) {
        Some((GlobalKind::Seat, version))
    } else if same_text(interface, xdg_wm_base_name()) {
        Some((GlobalKind::WmBase, 1))
    } else if same_text(interface, xdg_output_manager_name()) {
        Some((GlobalKind::XdgOutputManager, version))
    } else if same_text(interface, virtual_keyboard_manager_name()) {
        Some((GlobalKind::VirtualKeyboardManager, version))
    } else {
        None
    }
}

} // verus!
