//! Which interfaces a device can be captured for.
use crate::descriptors::{
    bytes_of, configuration_value, interface_alt_settings, interface_class, interface_number,
    is_configuration, is_interface_descriptor, law_alt_settings_are_the_interface_descriptors,
    ConfigurationDescriptor, CLASS_MASS_STORAGE,
};
use crate::error::{Error, ErrorKind};
use vstd::prelude::*;

verus! {

/// The first of `configs` that is selected by `value`.
pub open spec fn find_config(configs: Seq<Seq<u8>>, value: u8) -> Option<Seq<u8>>
    decreases configs.len(),
{
    if configs.len() == 0 {
        None
    } else if configuration_value(configs[0]) == value {
        Some(configs[0])
    } else {
        find_config(configs.skip(1), value)
    }
}

/// Whether each of `configs`, up to the first that is selected by `value`, is long enough to hold
/// the number that selects it.
pub open spec fn can_find_config(configs: Seq<Seq<u8>>, value: u8) -> bool
    decreases configs.len(),
{
    configs.len() > 0 ==> {
        &&& configs[0].len() > 5
        &&& configuration_value(configs[0]) == value || can_find_config(configs.skip(1), value)
    }
}

/// Whether `config` has a setting of the interface.
pub open spec fn has_interface(config: Seq<u8>, interface: u8) -> bool {
    exists|i: int|
        0 <= i < interface_alt_settings(config).len() && interface_number(
            #[trigger] interface_alt_settings(config)[i],
        ) == interface
}

/// Whether some setting of the interface in `config` makes it a mass-storage interface.
pub open spec fn is_mass_storage(config: Seq<u8>, interface: u8) -> bool {
    exists|i: int|
        {
            &&& 0 <= i < interface_alt_settings(config).len()
            &&& interface_number(#[trigger] interface_alt_settings(config)[i]) == interface
            &&& interface_class(interface_alt_settings(config)[i]) == CLASS_MASS_STORAGE
        }
}

/// Whether capturing the device makes `interface` claimable, and the error where it does not.
pub open spec fn capture_check(
    configs: Seq<Seq<u8>>,
    active_config: u8,
    interface: u8,
) -> Result<(), Error> {
    match find_config(configs, active_config) {
        None => Err(Error::new(ErrorKind::NotFound, "active configuration not found")),
        Some(config) => if !has_interface(config, interface) {
            Err(Error::new(ErrorKind::NotFound, "interface not found"))
        } else if is_mass_storage(config, interface) {
            Err(
                Error::new(
                    ErrorKind::Unsupported,
                    "macOS cannot detach mass-storage interface drivers",
                ),
            )
        } else {
            Ok(())
        },
    }
}

/// Tests whether capturing the device makes `interface` of the active configuration claimable.
pub fn validate_capture_interface(configs: &[Vec<u8>], active_config: u8, interface: u8) -> (r:
    Result<(), Error>)
    requires
        can_find_config(bytes_of(configs@), active_config),
    ensures
        r == capture_check(bytes_of(configs@), active_config, interface),
{
    let ghost all = bytes_of(configs@);
    let mut index: usize = 0;
    assert(all.skip(0) == all);
    while index < configs.len()
        invariant
            index <= configs@.len(),
            all == bytes_of(configs@),
            can_find_config(all.skip(index as int), active_config),
            find_config(all.skip(index as int), active_config) == find_config(all, active_config),
        decreases configs@.len() - index,
    {
        let config = ConfigurationDescriptor::new_unchecked(configs[index].as_slice());
        assert(all.skip(index as int)[0] == config@);
        assert(all.skip(index as int).skip(1) == all.skip(index + 1));
        if config.configuration_value() == active_config {
            return validate_active_config(config, interface);
        }
        index = index + 1;
    }

    Err(Error::new(ErrorKind::NotFound, "active configuration not found"))
}

/// Tests whether capturing a device whose active configuration is `config` makes `interface`
/// claimable.
fn validate_active_config(config: ConfigurationDescriptor<'_>, interface: u8) -> (r: Result<
    (),
    Error,
>)
    ensures
        r == (if !has_interface(config@, interface) {
            Err::<(), Error>(Error::new(ErrorKind::NotFound, "interface not found"))
        } else if is_mass_storage(config@, interface) {
            Err(
                Error::new(
                    ErrorKind::Unsupported,
                    "macOS cannot detach mass-storage interface drivers",
                ),
            )
        } else {
            Ok(())
        }),
{
    let settings = config.interface_alt_settings();
    let ghost alts = interface_alt_settings(config@);
    assert(forall|i: int| 0 <= i < settings@.len() ==> alts[i] == (#[trigger] settings@[i])@);
    assert(alts.len() == settings@.len());
    let mut found = false;
    let mut mass_storage = false;
    let mut index: usize = 0;
    while index < settings.len()
        invariant
            index <= settings@.len(),
            alts == interface_alt_settings(config@),
            alts.len() == settings@.len(),
            forall|i: int|
                0 <= i < settings@.len() ==> {
                    &&& alts[i] == (#[trigger] settings@[i])@
                    &&& is_interface_descriptor(settings@[i]@)
                },
            found <==> exists|i: int|
                0 <= i < index && interface_number(#[trigger] alts[i]) == interface,
            mass_storage <==> exists|i: int|
                {
                    &&& 0 <= i < index
                    &&& interface_number(#[trigger] alts[i]) == interface
                    &&& interface_class(alts[i]) == CLASS_MASS_STORAGE
                },
        decreases settings@.len() - index,
    {
        assert(alts[index as int] == settings@[index as int]@);
        if settings[index].interface_number() == interface {
            found = true;
            if settings[index].class() == CLASS_MASS_STORAGE {
                mass_storage = true;
            }
        }
        index = index + 1;
    }

    if !found {
        return Err(Error::new(ErrorKind::NotFound, "interface not found"));
    }
    // Device capture leaves the drivers of mass-storage interfaces attached. An interface with a
    // mass-storage setting is refused, rather than reported as detached while it stays
    // unclaimable.
    if mass_storage {
        return Err(
            Error::new(
                ErrorKind::Unsupported,
                "macOS cannot detach mass-storage interface drivers",
            ),
        );
    }
    Ok(())
}

/// Whole configurations can always be searched.
pub proof fn lemma_can_find_config(configs: Seq<Seq<u8>>, value: u8)
    requires
        forall|i: int| 0 <= i < configs.len() ==> is_configuration(#[trigger] configs[i]),
    ensures
        can_find_config(configs, value),
    decreases configs.len(),
{
    if configs.len() > 0 {
        assert(is_configuration(configs[0]));
        assert forall|i: int| 0 <= i < configs.skip(1).len() implies is_configuration(
            #[trigger] configs.skip(1)[i],
        ) by {
            assert(is_configuration(configs[i + 1]));
        }
        lemma_can_find_config(configs.skip(1), value);
    }
}

/// `find_config` finds the configuration at `index`, where that one is selected by `value` and
/// none before it is.
pub proof fn lemma_find_config(configs: Seq<Seq<u8>>, value: u8, index: int)
    requires
        0 <= index < configs.len(),
        configuration_value(configs[index]) == value,
        forall|i: int| 0 <= i < index ==> configuration_value(#[trigger] configs[i]) != value,
    ensures
        find_config(configs, value) == Some(configs[index]),
    decreases index,
{
    if index > 0 {
        assert(configuration_value(configs[0]) != value);
        assert forall|i: int| 0 <= i < index - 1 implies configuration_value(
            #[trigger] configs.skip(1)[i],
        ) != value by {
            assert(configuration_value(configs[i + 1]) != value);
        }
        lemma_find_config(configs.skip(1), value, index - 1);
    }
}

/// `find_config` finds nothing exactly where no configuration is selected by `value`.
pub proof fn lemma_find_config_none(configs: Seq<Seq<u8>>, value: u8)
    ensures
        find_config(configs, value) is None <==> forall|i: int|
            0 <= i < configs.len() ==> configuration_value(#[trigger] configs[i]) != value,
    decreases configs.len(),
{
    if configs.len() > 0 {
        lemma_find_config_none(configs.skip(1), value);
        let rest = configs.skip(1);
        if find_config(configs, value) is None {
            assert forall|i: int| 0 <= i < configs.len() implies configuration_value(
                #[trigger] configs[i],
            ) != value by {
                if i > 0 {
                    assert(rest[i - 1] == configs[i]);
                }
            }
        } else if forall|i: int|
            0 <= i < configs.len() ==> configuration_value(#[trigger] configs[i]) != value {
            assert(configuration_value(configs[0]) != value);
            assert forall|i: int| 0 <= i < rest.len() implies configuration_value(
                #[trigger] rest[i],
            ) != value by {
                assert(rest[i] == configs[i + 1]);
            }
        }
    }
}

/// Only the active configuration counts: what the other configurations hold changes nothing of
/// what capture can do for an interface.
pub proof fn law_capture_uses_only_the_active_configuration(
    configs: Seq<Seq<u8>>,
    others: Seq<Seq<u8>>,
    active_config: u8,
    interface: u8,
    index: int,
    other_index: int,
)
    requires
        0 <= index < configs.len(),
        0 <= other_index < others.len(),
        configs[index] == others[other_index],
        configuration_value(configs[index]) == active_config,
        forall|i: int|
            0 <= i < index ==> configuration_value(#[trigger] configs[i]) != active_config,
        forall|i: int|
            0 <= i < other_index ==> configuration_value(#[trigger] others[i]) != active_config,
    ensures
        capture_check(configs, active_config, interface) == capture_check(
            others,
            active_config,
            interface,
        ),
{
    lemma_find_config(configs, active_config, index);
    lemma_find_config(others, active_config, other_index);
}

/// One mass-storage alternate setting is enough to refuse the capture of an interface, whatever
/// the class of its other settings.
pub proof fn law_capture_rejects_any_mass_storage_setting(
    configs: Seq<Seq<u8>>,
    active_config: u8,
    interface: u8,
    index: int,
    setting: int,
)
    requires
        0 <= index < configs.len(),
        configuration_value(configs[index]) == active_config,
        forall|i: int|
            0 <= i < index ==> configuration_value(#[trigger] configs[i]) != active_config,
        0 <= setting < interface_alt_settings(configs[index]).len(),
        interface_number(interface_alt_settings(configs[index])[setting]) == interface,
        interface_class(interface_alt_settings(configs[index])[setting]) == CLASS_MASS_STORAGE,
    ensures
        capture_check(configs, active_config, interface) matches Err(e) && e.kind
            == ErrorKind::Unsupported,
{
    lemma_find_config(configs, active_config, index);
    assert(interface_number(interface_alt_settings(configs[index])[setting]) == interface);
}

/// An interface can be captured for only if the active configuration exists and has a setting
/// of it, and no setting of it is mass storage.
pub proof fn law_capture_accepts_only_claimable_interfaces(
    configs: Seq<Seq<u8>>,
    active_config: u8,
    interface: u8,
)
    requires
        capture_check(configs, active_config, interface) is Ok,
    ensures
        exists|index: int|
            {
                &&& 0 <= index < configs.len()
                &&& configuration_value(#[trigger] configs[index]) == active_config
                &&& has_interface(configs[index], interface)
                &&& !is_mass_storage(configs[index], interface)
            },
    decreases configs.len(),
{
    if configuration_value(configs[0]) != active_config {
        law_capture_accepts_only_claimable_interfaces(configs.skip(1), active_config, interface);
        let index = choose|index: int|
            {
                &&& 0 <= index < configs.skip(1).len()
                &&& configuration_value(#[trigger] configs.skip(1)[index]) == active_config
                &&& has_interface(configs.skip(1)[index], interface)
                &&& !is_mass_storage(configs.skip(1)[index], interface)
            };
        assert(configs.skip(1)[index] == configs[index + 1]);
    }
}

/// What capture can do for an interface, told by the descriptors that the active configuration is
/// made of, whatever their types and wherever among them those of the interface stand: the
/// interface is found exactly where one of them is an interface descriptor (type 4, at least nine
/// bytes) with its number, and is refused exactly where such a one has the class of mass storage.
pub proof fn law_capture_by_descriptors(
    configs: Seq<Seq<u8>>,
    active_config: u8,
    interface: u8,
    index: int,
    parts: Seq<Seq<u8>>,
    rest: Seq<u8>,
)
    requires
        0 <= index < configs.len(),
        configs[index][5] == active_config,
        forall|i: int| 0 <= i < index ==> (#[trigger] configs[i])[5] != active_config,
        configs[index] == parts.flatten() + rest,
        forall|i: int|
            0 <= i < parts.len() ==> 2 <= (#[trigger] parts[i]).len() && parts[i][0]
                == parts[i].len(),
        rest.len() == 0 || rest[0] < 2 || rest[0] > rest.len(),
    ensures
        ({
            let found = exists|i: int|
                0 <= i < parts.len() && (#[trigger] parts[i]).len() >= 9 && parts[i][1] == 4
                    && parts[i][2] == interface;
            let mass_storage = exists|i: int|
                0 <= i < parts.len() && (#[trigger] parts[i]).len() >= 9 && parts[i][1] == 4
                    && parts[i][2] == interface && parts[i][5] == 8;
            let result = capture_check(configs, active_config, interface);
            &&& result is Ok <==> found && !mass_storage
            &&& !found ==> (result matches Err(error) && error == (Error {
                kind: ErrorKind::NotFound,
                message: "interface not found",
                code: None,
            }))
            &&& mass_storage ==> (result matches Err(error) && error == (Error {
                kind: ErrorKind::Unsupported,
                message: "macOS cannot detach mass-storage interface drivers",
                code: None,
            }))
        }),
{
    assert forall|i: int| 0 <= i < index implies configuration_value(#[trigger] configs[i])
        != active_config by {
        assert(configs[i][5] != active_config);
    }
    lemma_find_config(configs, active_config, index);
    law_alt_settings_are_the_interface_descriptors(parts, rest);
    let config = configs[index];
    let settings = interface_alt_settings(config);
    if exists|i: int|
        0 <= i < parts.len() && (#[trigger] parts[i]).len() >= 9 && parts[i][1] == 4 && parts[i][2]
            == interface {
        let i = choose|i: int|
            0 <= i < parts.len() && (#[trigger] parts[i]).len() >= 9 && parts[i][1] == 4
                && parts[i][2] == interface;
        assert(settings.contains(parts[i]));
        let j = settings.index_of(parts[i]);
        assert(interface_number(settings[j]) == interface);
    }
    if exists|i: int|
        0 <= i < parts.len() && (#[trigger] parts[i]).len() >= 9 && parts[i][1] == 4 && parts[i][2]
            == interface && parts[i][5] == 8 {
        let i = choose|i: int|
            0 <= i < parts.len() && (#[trigger] parts[i]).len() >= 9 && parts[i][1] == 4
                && parts[i][2] == interface && parts[i][5] == 8;
        assert(settings.contains(parts[i]));
        let j = settings.index_of(parts[i]);
        assert(interface_number(settings[j]) == interface);
        assert(interface_class(settings[j]) == 8);
    }
    if has_interface(config, interface) {
        let j = choose|j: int|
            0 <= j < settings.len() && interface_number(#[trigger] settings[j]) == interface;
        assert(parts.contains(settings[j]));
        let i = parts.index_of(settings[j]);
        assert(parts[i].len() >= 9 && parts[i][1] == 4 && parts[i][2] == interface);
    }
    if is_mass_storage(config, interface) {
        let j = choose|j: int|
            {
                &&& 0 <= j < settings.len()
                &&& interface_number(#[trigger] settings[j]) == interface
                &&& interface_class(settings[j]) == CLASS_MASS_STORAGE
            };
        assert(parts.contains(settings[j]));
        let i = parts.index_of(settings[j]);
        assert(parts[i].len() >= 9 && parts[i][1] == 4 && parts[i][2] == interface && parts[i][5]
            == 8);
    }
}

/// Without the active configuration among `configs`, there is no interface to capture for.
pub proof fn law_capture_needs_the_active_configuration(
    configs: Seq<Seq<u8>>,
    active_config: u8,
    interface: u8,
)
    requires
        forall|i: int| 0 <= i < configs.len() ==> (#[trigger] configs[i])[5] != active_config,
    ensures
        capture_check(configs, active_config, interface) matches Err(error) && error == (Error {
            kind: ErrorKind::NotFound,
            message: "active configuration not found",
            code: None,
        }),
{
    assert forall|i: int| 0 <= i < configs.len() implies configuration_value(#[trigger] configs[i])
        != active_config by {
        assert(configs[i][5] != active_config);
    }
    lemma_find_config_none(configs, active_config);
}

} // verus!
