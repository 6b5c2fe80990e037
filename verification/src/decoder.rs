//! Choosing between software decoding and a hardware device.
use vstd::prelude::*;

verus! {

/// The operating system the library was built for.
#[derive(Debug, Clone, Copy, PartialEq, Eq, Structural)]
pub enum TargetOs {
    Linux,
    MacOs,
    Windows,
    Other,
}

/// The FFmpeg hardware device types that a decoder can be attached to.
#[derive(Debug, Clone, Copy, PartialEq, Eq, Structural)]
pub enum HwDeviceType {
    Vaapi,
    VideoToolbox,
    D3d11va,
    D3d12va,
    Cuda,
    Vulkan,
}

/// The hardware acceleration that a caller may select.
#[allow(clippy::upper_case_acronyms)]
#[derive(Debug, Clone, Copy, PartialEq, Eq, Structural)]
pub enum HardwareType {
    VAAPI,
    VideoToolbox,
    D3D11VA,
    D3D12VA,
    CUDA,
    Vulkan,
}

/// How frames are decoded: in software, or on one hardware device.
#[allow(clippy::upper_case_acronyms)]
#[derive(Debug, Clone, Copy, PartialEq, Eq, Structural)]
pub enum HardwareAcceleration {
    Software,
    VAAPI,
    VideoToolbox,
    D3D11VA,
    D3D12VA,
    CUDA,
    Vulkan,
}

/// Why a decoder could not be opened.
#[derive(Debug, Clone, Copy, PartialEq, Eq, Structural)]
pub enum DecoderError {
    /// The selected acceleration does not exist on this platform.
    UnsupportedPlatform,
    /// FFmpeg refused to open the decoder (or its scaler).
    FailedToOpenDecoder,
    /// The codec offers no configuration for the selected device.
    NoHwConfig,
}

pub open spec fn spec_acceleration(hw: HardwareType) -> HardwareAcceleration {
    match hw {
        HardwareType::VAAPI => HardwareAcceleration::VAAPI,
        HardwareType::VideoToolbox => HardwareAcceleration::VideoToolbox,
        HardwareType::D3D11VA => HardwareAcceleration::D3D11VA,
        HardwareType::D3D12VA => HardwareAcceleration::D3D12VA,
        HardwareType::CUDA => HardwareAcceleration::CUDA,
        HardwareType::Vulkan => HardwareAcceleration::Vulkan,
    }
}

impl From<HardwareType> for HardwareAcceleration {
    fn from(value: HardwareType) -> (res: Self) {
        match value {
            HardwareType::VAAPI => HardwareAcceleration::VAAPI,
            HardwareType::VideoToolbox => HardwareAcceleration::VideoToolbox,
            HardwareType::D3D11VA => HardwareAcceleration::D3D11VA,
            HardwareType::D3D12VA => HardwareAcceleration::D3D12VA,
            HardwareType::CUDA => HardwareAcceleration::CUDA,
            HardwareType::Vulkan => HardwareAcceleration::Vulkan,
        }
    }
}

impl vstd::std_specs::convert::FromSpecImpl<HardwareType> for HardwareAcceleration {
    open spec fn obeys_from_spec() -> bool {
        true
    }

    open spec fn from_spec(v: HardwareType) -> HardwareAcceleration {
        spec_acceleration(v)
    }
}

/// The acceleration that an optional selection stands for: none selected
/// means software decoding.
pub fn acceleration_from(selected: Option<HardwareType>) -> (res: HardwareAcceleration)
    ensures
        res == match selected {
            Some(hw) => spec_acceleration(hw),
            None => HardwareAcceleration::Software,
        },
{
    match selected {
        Some(hw) => HardwareAcceleration::from(hw),
        None => HardwareAcceleration::Software,
    }
}

/// The device that decodes with the platform's default acceleration.
pub open spec fn spec_default_device(os: TargetOs) -> Option<HwDeviceType> {
    match os {
        TargetOs::MacOs => Some(HwDeviceType::VideoToolbox),
        TargetOs::Linux => Some(HwDeviceType::Vaapi),
        TargetOs::Windows => Some(HwDeviceType::D3d11va),
        TargetOs::Other => None,
    }
}

/// The default hardware device of the platform: VideoToolbox on macOS, VAAPI
/// on Linux, D3D11VA on Windows; elsewhere hardware decoding is unsupported.
pub fn default_hw_device_type(os: TargetOs) -> (res: Result<HwDeviceType, DecoderError>)
    ensures
        match spec_default_device(os) {
            Some(device) => res == Ok::<HwDeviceType, DecoderError>(device),
            None => res == Err::<HwDeviceType, DecoderError>(DecoderError::UnsupportedPlatform),
        },
        os == TargetOs::MacOs ==> res == Ok::<HwDeviceType, DecoderError>(HwDeviceType::VideoToolbox),
        os == TargetOs::Linux ==> res == Ok::<HwDeviceType, DecoderError>(HwDeviceType::Vaapi),
        os == TargetOs::Windows ==> res == Ok::<HwDeviceType, DecoderError>(HwDeviceType::D3d11va),
        os == TargetOs::Other ==> res == Err::<HwDeviceType, DecoderError>(
            DecoderError::UnsupportedPlatform,
        ),
{
    match os {
        TargetOs::MacOs => Ok(HwDeviceType::VideoToolbox),
        TargetOs::Linux => Ok(HwDeviceType::Vaapi),
        TargetOs::Windows => Ok(HwDeviceType::D3d11va),
        TargetOs::Other => Err(DecoderError::UnsupportedPlatform),
    }
}

/// The device of a hardware acceleration (`None` for software decoding).
pub open spec fn spec_device(accel: HardwareAcceleration) -> Option<HwDeviceType> {
    match accel {
        HardwareAcceleration::Software => None,
        HardwareAcceleration::VAAPI => Some(HwDeviceType::Vaapi),
        HardwareAcceleration::VideoToolbox => Some(HwDeviceType::VideoToolbox),
        HardwareAcceleration::D3D11VA => Some(HwDeviceType::D3d11va),
        HardwareAcceleration::D3D12VA => Some(HwDeviceType::D3d12va),
        HardwareAcceleration::CUDA => Some(HwDeviceType::Cuda),
        HardwareAcceleration::Vulkan => Some(HwDeviceType::Vulkan),
    }
}

/// On which platforms each device exists: VAAPI on Linux, VideoToolbox on
/// macOS, D3D11VA and D3D12VA on Windows, CUDA and Vulkan on Linux and Windows.
pub open spec fn supported_on(device: HwDeviceType, os: TargetOs) -> bool {
    match device {
        HwDeviceType::Vaapi => os == TargetOs::Linux,
        HwDeviceType::VideoToolbox => os == TargetOs::MacOs,
        HwDeviceType::D3d11va => os == TargetOs::Windows,
        HwDeviceType::D3d12va => os == TargetOs::Windows,
        HwDeviceType::Cuda => os == TargetOs::Linux || os == TargetOs::Windows,
        HwDeviceType::Vulkan => os == TargetOs::Linux || os == TargetOs::Windows,
    }
}

/// What a decoder request comes to: software decoding, a device that the
/// platform has, or `UnsupportedPlatform`.
pub open spec fn spec_decoder_device(accel: HardwareAcceleration, os: TargetOs) -> Result<
    Option<HwDeviceType>,
    DecoderError,
> {
    match spec_device(accel) {
        None => Ok(None),
        Some(device) => if supported_on(device, os) {
            Ok(Some(device))
        } else {
            Err(DecoderError::UnsupportedPlatform)
        },
    }
}

fn is_supported(device: HwDeviceType, os: TargetOs) -> (res: bool)
    ensures
        res == supported_on(device, os),
{
    match device {
        HwDeviceType::Vaapi => os == TargetOs::Linux,
        HwDeviceType::VideoToolbox => os == TargetOs::MacOs,
        HwDeviceType::D3d11va => os == TargetOs::Windows,
        HwDeviceType::D3d12va => os == TargetOs::Windows,
        HwDeviceType::Cuda => os == TargetOs::Linux || os == TargetOs::Windows,
        HwDeviceType::Vulkan => os == TargetOs::Linux || os == TargetOs::Windows,
    }
}

/// The device a decoder with acceleration `accel` is opened on, on `os`:
/// `None` for software decoding, and `UnsupportedPlatform` when the
/// selected device does not exist on that platform.
pub fn decoder_device(accel: HardwareAcceleration, os: TargetOs) -> (res: Result<
    Option<HwDeviceType>,
    DecoderError,
>)
    ensures
        res == spec_decoder_device(accel, os),
        accel == HardwareAcceleration::Software ==> res == Ok::<Option<HwDeviceType>, DecoderError>(None),
        accel == HardwareAcceleration::VAAPI ==> res == if os == TargetOs::Linux {
            Ok::<Option<HwDeviceType>, DecoderError>(Some(HwDeviceType::Vaapi))
        } else {
            Err::<Option<HwDeviceType>, DecoderError>(DecoderError::UnsupportedPlatform)
        },
        accel == HardwareAcceleration::VideoToolbox ==> res == if os == TargetOs::MacOs {
            Ok::<Option<HwDeviceType>, DecoderError>(Some(HwDeviceType::VideoToolbox))
        } else {
            Err::<Option<HwDeviceType>, DecoderError>(DecoderError::UnsupportedPlatform)
        },
        accel == HardwareAcceleration::D3D11VA ==> res == if os == TargetOs::Windows {
            Ok::<Option<HwDeviceType>, DecoderError>(Some(HwDeviceType::D3d11va))
        } else {
            Err::<Option<HwDeviceType>, DecoderError>(DecoderError::UnsupportedPlatform)
        },
        accel == HardwareAcceleration::D3D12VA ==> res == if os == TargetOs::Windows {
            Ok::<Option<HwDeviceType>, DecoderError>(Some(HwDeviceType::D3d12va))
        } else {
            Err::<Option<HwDeviceType>, DecoderError>(DecoderError::UnsupportedPlatform)
        },
        accel == HardwareAcceleration::CUDA ==> res == if os == TargetOs::Linux || os == TargetOs::Windows {
            Ok::<Option<HwDeviceType>, DecoderError>(Some(HwDeviceType::Cuda))
        } else {
            Err::<Option<HwDeviceType>, DecoderError>(DecoderError::UnsupportedPlatform)
        },
        accel == HardwareAcceleration::Vulkan ==> res == if os == TargetOs::Linux || os == TargetOs::Windows {
            Ok::<Option<HwDeviceType>, DecoderError>(Some(HwDeviceType::Vulkan))
        } else {
            Err::<Option<HwDeviceType>, DecoderError>(DecoderError::UnsupportedPlatform)
        },
{
    let device = match accel {
        HardwareAcceleration::Software => {
            return Ok(None);
        },
        HardwareAcceleration::VAAPI => HwDeviceType::Vaapi,
        HardwareAcceleration::VideoToolbox => HwDeviceType::VideoToolbox,
        HardwareAcceleration::D3D11VA => HwDeviceType::D3d11va,
        HardwareAcceleration::D3D12VA => HwDeviceType::D3d12va,
        HardwareAcceleration::CUDA => HwDeviceType::Cuda,
        HardwareAcceleration::Vulkan => HwDeviceType::Vulkan,
    };
    if is_supported(device, os) {
        Ok(Some(device))
    } else {
        Err(DecoderError::UnsupportedPlatform)
    }
}

/// The device of a decoder asked for hardware decoding (the platform's
/// default device, or `UnsupportedPlatform`) or not (software decoding).
pub open spec fn spec_device_for_flag(use_hardware: bool, os: TargetOs) -> Result<
    Option<HwDeviceType>,
    DecoderError,
> {
    if !use_hardware {
        Ok(None)
    } else {
        match spec_default_device(os) {
            Some(device) => Ok(Some(device)),
            None => Err(DecoderError::UnsupportedPlatform),
        }
    }
}

/// The device of a decoder that is asked for hardware decoding or not:
/// the platform's default device, or software decoding.
pub fn decoder_device_for_flag(use_hardware: bool, os: TargetOs) -> (res: Result<
    Option<HwDeviceType>,
    DecoderError,
>)
    ensures
        res == spec_device_for_flag(use_hardware, os),
        !use_hardware ==> res == Ok::<Option<HwDeviceType>, DecoderError>(None),
        use_hardware && os == TargetOs::MacOs ==> res == Ok::<Option<HwDeviceType>, DecoderError>(Some(HwDeviceType::VideoToolbox)),
        use_hardware && os == TargetOs::Linux ==> res == Ok::<Option<HwDeviceType>, DecoderError>(Some(HwDeviceType::Vaapi)),
        use_hardware && os == TargetOs::Windows ==> res == Ok::<Option<HwDeviceType>, DecoderError>(Some(HwDeviceType::D3d11va)),
        use_hardware && os == TargetOs::Other ==> res == Err::<Option<HwDeviceType>, DecoderError>(DecoderError::UnsupportedPlatform),
{
    if use_hardware {
        match default_hw_device_type(os) {
            Ok(device) => Ok(Some(device)),
            Err(e) => Err(e),
        }
    } else {
        Ok(None)
    }
}


/// The method bit of a codec hardware configuration that is set up through
/// a device context (the only way decoders are attached to devices here).
pub const HW_CONFIG_METHOD_DEVICE_CONTEXT: i32 = 1;

/// A codec offers a configuration for device type `wanted` set up through a
/// device context; `configs` lists each configuration's device type and
/// method bits.
pub open spec fn offers_device(configs: Seq<(u32, i32)>, wanted: u32) -> bool {
    exists|i: int|
        0 <= i < configs.len() && (#[trigger] configs[i]).0 == wanted && configs[i].1
            & HW_CONFIG_METHOD_DEVICE_CONTEXT != 0
}

/// Whether a codec can decode on device type `wanted`, given its hardware
/// configurations (device type and method bits each): without a
/// configuration for that device set up through a device context, there is
/// no hardware configuration to use.
pub fn check_hw_config(configs: &Vec<(u32, i32)>, wanted: u32) -> (res: Result<(), DecoderError>)
    ensures
        res is Ok <==> offers_device(configs@, wanted),
        res is Err ==> res == Err::<(), DecoderError>(DecoderError::NoHwConfig),
{
    let mut i: usize = 0;
    while i < configs.len()
        invariant
            i <= configs@.len(),
            forall|k: int|
                0 <= k < i ==> !((#[trigger] configs@[k]).0 == wanted && configs@[k].1
                    & HW_CONFIG_METHOD_DEVICE_CONTEXT != 0),
        decreases configs@.len() - i,
    {
        let (device, methods) = configs[i];
        if device == wanted && methods & HW_CONFIG_METHOD_DEVICE_CONTEXT != 0 {
            assert(configs@[i as int].0 == wanted);
            return Ok(());
        }
        i = i + 1;
    }
    Err(DecoderError::NoHwConfig)
}


/// The README's platform table: each hardware device is accepted only on
/// its platforms (VAAPI on Linux, VideoToolbox on macOS, D3D11VA and
/// D3D12VA on Windows, CUDA and Vulkan on Linux and Windows), is then
/// decoded on the device of the same name, and is refused with
/// `UnsupportedPlatform` everywhere else.
pub proof fn lemma_platform_table(accel: HardwareAcceleration, os: TargetOs)
    ensures
        spec_decoder_device(accel, os) is Err ==> spec_decoder_device(accel, os) == Err::<Option<HwDeviceType>, DecoderError>(DecoderError::UnsupportedPlatform),
        accel == HardwareAcceleration::Software ==> spec_decoder_device(accel, os) == Ok::<Option<HwDeviceType>, DecoderError>(None),
        accel == HardwareAcceleration::VAAPI ==> (spec_decoder_device(accel, os) is Ok <==> os == TargetOs::Linux),
        accel == HardwareAcceleration::VideoToolbox ==> (spec_decoder_device(accel, os) is Ok <==> os == TargetOs::MacOs),
        accel == HardwareAcceleration::D3D11VA ==> (spec_decoder_device(accel, os) is Ok <==> os == TargetOs::Windows),
        accel == HardwareAcceleration::D3D12VA ==> (spec_decoder_device(accel, os) is Ok <==> os == TargetOs::Windows),
        accel == HardwareAcceleration::CUDA ==> (spec_decoder_device(accel, os) is Ok <==> (os == TargetOs::Linux || os == TargetOs::Windows)),
        accel == HardwareAcceleration::Vulkan ==> (spec_decoder_device(accel, os) is Ok <==> (os == TargetOs::Linux || os == TargetOs::Windows)),
        accel == HardwareAcceleration::VAAPI && os == TargetOs::Linux ==> spec_decoder_device(accel, os) == Ok::<Option<HwDeviceType>, DecoderError>(Some(HwDeviceType::Vaapi)),
        accel == HardwareAcceleration::VideoToolbox && os == TargetOs::MacOs ==> spec_decoder_device(accel, os) == Ok::<Option<HwDeviceType>, DecoderError>(Some(HwDeviceType::VideoToolbox)),
        accel == HardwareAcceleration::D3D11VA && os == TargetOs::Windows ==> spec_decoder_device(accel, os) == Ok::<Option<HwDeviceType>, DecoderError>(Some(HwDeviceType::D3d11va)),
        accel == HardwareAcceleration::D3D12VA && os == TargetOs::Windows ==> spec_decoder_device(accel, os) == Ok::<Option<HwDeviceType>, DecoderError>(Some(HwDeviceType::D3d12va)),
        accel == HardwareAcceleration::CUDA && (os == TargetOs::Linux || os == TargetOs::Windows) ==> spec_decoder_device(accel, os) == Ok::<Option<HwDeviceType>, DecoderError>(Some(HwDeviceType::Cuda)),
        accel == HardwareAcceleration::Vulkan && (os == TargetOs::Linux || os == TargetOs::Windows) ==> spec_decoder_device(accel, os) == Ok::<Option<HwDeviceType>, DecoderError>(Some(HwDeviceType::Vulkan)),
{
}

/// Asking for hardware decoding picks what `default_hw_device_type` gives
/// on the same platform: its device when it has one (VideoToolbox on macOS,
/// VAAPI on Linux, D3D11VA on Windows), its refusal otherwise.
pub proof fn lemma_flag_uses_default_device(os: TargetOs)
    ensures
        spec_device_for_flag(true, os) is Ok <==> spec_default_device(os) is Some,
        spec_default_device(os) matches Some(d) ==> spec_device_for_flag(true, os) == Ok::<Option<HwDeviceType>, DecoderError>(Some(d)),
        os == TargetOs::MacOs ==> spec_device_for_flag(true, os) == Ok::<Option<HwDeviceType>, DecoderError>(Some(HwDeviceType::VideoToolbox)),
        os == TargetOs::Linux ==> spec_device_for_flag(true, os) == Ok::<Option<HwDeviceType>, DecoderError>(Some(HwDeviceType::Vaapi)),
        os == TargetOs::Windows ==> spec_device_for_flag(true, os) == Ok::<Option<HwDeviceType>, DecoderError>(Some(HwDeviceType::D3d11va)),
        os == TargetOs::Other ==> spec_device_for_flag(true, os) == Err::<Option<HwDeviceType>, DecoderError>(DecoderError::UnsupportedPlatform),
        spec_device_for_flag(false, os) == Ok::<Option<HwDeviceType>, DecoderError>(None),
{
}

/// Every platform's default device is one that the platform supports.
pub proof fn lemma_default_device_supported(os: TargetOs)
    ensures
        spec_default_device(os) matches Some(device) ==> supported_on(device, os),
{
}

/// Selecting no hardware always decodes in software, on every platform.
pub proof fn lemma_software_always_available(os: TargetOs)
    ensures
        spec_decoder_device(HardwareAcceleration::Software, os) == Ok::<
            Option<HwDeviceType>,
            DecoderError,
        >(None),
{
}

} // verus!
