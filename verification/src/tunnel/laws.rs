//! What holds of every generation.

use crate::tunnel::error::Error;
use crate::tunnel::generation::{Generation, ProgressView, Reply, Request, Settings, Stage};
use crate::tunnel::generator::{
    bridge_relay, obfuscator_relay, parameters_for, relays_selected, GeneratorView,
};
use crate::tunnel::migration::{
    lemma_missing_threshold_prefers_new_protocol, lemma_zero_threshold_never_prefers_new_protocol,
    prefers_new_protocol, threshold_in_force, Binary32, VersionCache,
};
use crate::tunnel::relay::hostname_of;
use crate::tunnel::selection::{
    AccountAndDevice, NormalSelectedRelay, SelectedBridge, SelectedObfuscator, SelectedRelay,
    Selection,
};
use vstd::prelude::*;

verus! {

/// A generator that remembers no relays reports no location. That is so for
/// a new generator, and stays so until a generation succeeds for a relay of
/// the relay list.
pub proof fn lemma_no_location_without_relays(generator: GeneratorView)
    requires
        generator.last_generated_relays is None,
    ensures
        generator.location_known(),
        generator.last_location() is None,
{
}

/// A step changes the generator only when it ends the generation with the
/// parameters for a relay of the relay list, and then it changes nothing but
/// the relays that are remembered. Every other step, and so every generation
/// that fails or is abandoned on the way, leaves the generator as it was.
pub proof fn lemma_only_success_changes_the_generator(
    before: GeneratorView,
    generation: Generation,
    reply: Reply,
)
    ensures
        ({
            let (after, progress) = before.step(generation, reply);
            &&& after != before ==> generation.stage is DeviceForParameters && progress.succeeded()
            &&& !progress.succeeded() ==> after == before
            &&& after.tunnel_options == before.tunnel_options
            &&& after.openvpn_supported == before.openvpn_supported
        }),
{
}

/// Where replies leave a generation pending, one more reply is taken from
/// there.
pub proof fn lemma_run_continues(
    generator: GeneratorView,
    generation: Generation,
    request: Request,
    replies: Seq<Reply>,
    last: Reply,
)
    ensures
        generator.run(generation, request, replies.push(last)) == match generator.run(
            generation,
            request,
            replies,
        ) {
            (reached, ProgressView::Pending(generation, _)) => reached.step(generation, last),
            over => over,
        },
    decreases replies.len(),
{
    let all = replies.push(last);
    if replies.len() == 0 {
        assert(all[0] == last);
        assert(all.skip(1) =~= Seq::<Reply>::empty());
        match generator.step(generation, last) {
            (next, ProgressView::Pending(generation, request)) => {
                assert(next.run(generation, request, all.skip(1)) == (
                    next,
                    ProgressView::Pending(generation, request),
                ));
            },
            _ => {},
        }
    } else {
        assert(all[0] == replies[0]);
        assert(all.skip(1) =~= replies.skip(1).push(last));
        match generator.step(generation, replies[0]) {
            (next, ProgressView::Pending(generation, request)) => {
                lemma_run_continues(next, generation, request, replies.skip(1), last);
            },
            _ => {},
        }
    }
}

/// Whatever replies a generation is given, it changes the generator only by
/// succeeding, and then it changes nothing but the relays that are
/// remembered. A generation that is still going on, that has failed, or that
/// was handed a reply of the wrong kind has left the generator as it was.
pub proof fn lemma_only_a_successful_run_changes_the_generator(
    before: GeneratorView,
    generation: Generation,
    request: Request,
    replies: Seq<Reply>,
)
    ensures
        ({
            let (after, progress) = before.run(generation, request, replies);
            &&& !progress.succeeded() ==> after == before
            &&& after.tunnel_options == before.tunnel_options
            &&& after.openvpn_supported == before.openvpn_supported
        }),
    decreases replies.len(),
{
    if replies.len() > 0 {
        lemma_only_success_changes_the_generator(before, generation, replies[0]);
        match before.step(generation, replies[0]) {
            (next, ProgressView::Pending(generation, request)) => {
                lemma_only_a_successful_run_changes_the_generator(
                    next,
                    generation,
                    request,
                    replies.skip(1),
                );
            },
            _ => {},
        }
    }
}

/// Whether `reply` makes `generation` build parameters, and so makes the
/// generator remember relays.
pub open spec fn builds_parameters(generation: Generation, reply: Reply) -> bool {
    generation.stage is DeviceForParameters && reply.names_device()
}

/// A generation reads nothing of the generator but its options, and writes
/// nothing but the relays to remember, at its end. So even where the steps
/// of two generations alternate on one state, they do not disturb each other:
/// how far a reply brings a generation is the same whether a step of the
/// other generation came before it or not, and the state is the same after
/// both steps in either order, unless both steps build parameters. Then the
/// relays of the step that came last are remembered.
pub proof fn lemma_generations_do_not_disturb_each_other(
    generator: GeneratorView,
    first: Generation,
    first_reply: Reply,
    second: Generation,
    second_reply: Reply,
)
    ensures
        ({
            let (after_first, first_alone) = generator.step(first, first_reply);
            let (after_second, second_alone) = generator.step(second, second_reply);
            let (first_then_second, second_later) = after_first.step(second, second_reply);
            let (second_then_first, first_later) = after_second.step(first, first_reply);
            &&& first_later == first_alone
            &&& second_later == second_alone
            &&& !(builds_parameters(first, first_reply) && builds_parameters(
                second,
                second_reply,
            )) ==> first_then_second == second_then_first
            &&& builds_parameters(second, second_reply) ==> first_then_second == after_second
            &&& builds_parameters(first, first_reply) ==> second_then_first == after_first
        }),
{
}

/// After a generation has succeeded for a WireGuard relay that has a
/// location, the reported location names the exit relay, the entry relay and
/// the obfuscator exactly as they were selected, and no bridge.
pub proof fn lemma_location_after_wireguard_generation(
    before: GeneratorView,
    generation: Generation,
    data: AccountAndDevice,
)
    requires
        generation.stage matches Stage::DeviceForParameters { relay, .. } && relay.endpoint
            is Wireguard && relay.exit_relay.location is Some,
    ensures
        ({
            let after = before.step(generation, Reply::Device(Some(data))).0;
            &&& after.location_known()
            &&& after.last_location() matches Some(location)
            &&& generation.stage matches Stage::DeviceForParameters { relay, obfuscator, .. }
            &&& location.hostname == Some(relay.exit_relay.hostname)
            &&& location.entry_hostname == hostname_of(relay.entry_relay)
            &&& location.obfuscator_hostname == hostname_of(obfuscator_relay(obfuscator))
            &&& location.bridge_hostname is None
            &&& location.country == relay.exit_relay.location->0.country
            &&& location.city == Some(relay.exit_relay.location->0.city)
        }),
{
}

/// After a generation has succeeded for an OpenVPN relay that has a location,
/// the reported location names the relay and the relay behind the bridge, if
/// there is one, and neither an entry relay nor an obfuscator.
pub proof fn lemma_location_after_openvpn_generation(
    before: GeneratorView,
    generation: Generation,
    data: AccountAndDevice,
)
    requires
        generation.stage matches Stage::DeviceForParameters { relay, .. } && relay.endpoint
            is OpenVpn && relay.exit_relay.location is Some,
    ensures
        ({
            let after = before.step(generation, Reply::Device(Some(data))).0;
            &&& after.location_known()
            &&& after.last_location() matches Some(location)
            &&& generation.stage matches Stage::DeviceForParameters { relay, bridge, .. }
            &&& location.hostname == Some(relay.exit_relay.hostname)
            &&& location.bridge_hostname == hostname_of(bridge_relay(bridge))
            &&& location.entry_hostname is None
            &&& location.obfuscator_hostname is None
            &&& location.country == relay.exit_relay.location->0.country
            &&& location.city == Some(relay.exit_relay.location->0.city)
        }),
{
}

/// A number that the settings hold is used as it is: the generation neither
/// draws nor stores one, and goes on to the device with the preference that
/// this number decides.
pub proof fn lemma_persisted_draw_is_reused(
    before: GeneratorView,
    generation: Generation,
    draw: Binary32,
)
    requires
        generation.stage is Settings,
    ensures
        before.step(generation, Reply::Settings(Settings { migration_random: Some(draw) })) == (
            before,
            ProgressView::Pending(
                generation.at(
                    Stage::Device {
                        default_to_new_protocol: prefers_new_protocol(
                            draw,
                            generation.stage->Settings_threshold,
                        ),
                    },
                ),
                Request::QueryDevice,
            ),
        ),
{
}

/// A fresh draw is the number that the generation asks to store, and it
/// decides the preference as the stored number will in every later
/// generation under the same threshold.
pub proof fn lemma_fresh_draw_is_stored_and_decides_alike(
    generator: GeneratorView,
    later: GeneratorView,
    retry_attempt: u32,
    later_attempt: u32,
    threshold: Binary32,
    draw: Binary32,
)
    ensures
        ({
            let drawing = Generation { retry_attempt, stage: Stage::Draw { threshold } };
            let reading = Generation {
                retry_attempt: later_attempt,
                stage: Stage::Settings { threshold },
            };
            let stored = Settings { migration_random: Some(draw) };
            &&& generator.step(drawing, Reply::Random(draw)).1 matches ProgressView::Pending(
                storing,
                request,
            )
            &&& request == Request::PersistRandom(draw)
            &&& storing.stage matches Stage::Persist { default_to_new_protocol }
            &&& later.step(reading, Reply::Settings(stored)).1 == ProgressView::Pending(
                reading.at(Stage::Device { default_to_new_protocol }),
                Request::QueryDevice,
            )
        }),
{
}

/// The replies of a generation up to the relay selector's, where the
/// settings hold the number drawn for the installation.
pub open spec fn replies_with_stored_draw(
    cache: Option<VersionCache>,
    draw: Binary32,
    device: AccountAndDevice,
) -> Seq<Reply> {
    seq![
        Reply::VersionCache(cache),
        Reply::Settings(Settings { migration_random: Some(draw) }),
        Reply::Device(Some(device)),
    ]
}

/// The replies of a generation up to the relay selector's, where the number
/// is drawn afresh. `stored` says whether it could be stored.
pub open spec fn replies_with_fresh_draw(
    cache: Option<VersionCache>,
    draw: Binary32,
    stored: bool,
    device: AccountAndDevice,
) -> Seq<Reply> {
    seq![
        Reply::VersionCache(cache),
        Reply::Settings(Settings { migration_random: None }),
        Reply::Random(draw),
        Reply::Persisted(stored),
        Reply::Device(Some(device)),
    ]
}

/// The relay selector is asked with the attempt that the generation was begun
/// for and with the preference that the draw and the threshold decide,
/// whether the settings held the draw or it was drawn afresh, and whether or
/// not a fresh draw could be stored.
pub proof fn lemma_selector_is_asked_with_the_decision(
    generator: GeneratorView,
    retry_attempt: u32,
    cache: Option<VersionCache>,
    draw: Binary32,
    stored: bool,
    device: AccountAndDevice,
)
    ensures
        ({
            let asked = (
                generator,
                ProgressView::Pending(
                    Generation { retry_attempt, stage: Stage::Relay },
                    Request::SelectRelay {
                        retry_attempt,
                        default_to_new_protocol: prefers_new_protocol(
                            draw,
                            threshold_in_force(cache),
                        ),
                    },
                ),
            );
            &&& generator.generate(retry_attempt, replies_with_stored_draw(cache, draw, device))
                == asked
            &&& generator.generate(
                retry_attempt,
                replies_with_fresh_draw(cache, draw, stored, device),
            ) == asked
        }),
{
    let start = Generation::initial(retry_attempt);
    let first = Request::LoadVersionCache;
    let none = Seq::<Reply>::empty();
    let s = replies_with_stored_draw(cache, draw, device);
    assert(s =~= none.push(s[0]).push(s[1]).push(s[2]));
    lemma_run_continues(generator, start, first, none, s[0]);
    lemma_run_continues(generator, start, first, none.push(s[0]), s[1]);
    lemma_run_continues(generator, start, first, none.push(s[0]).push(s[1]), s[2]);
    let f = replies_with_fresh_draw(cache, draw, stored, device);
    assert(f =~= none.push(f[0]).push(f[1]).push(f[2]).push(f[3]).push(f[4]));
    lemma_run_continues(generator, start, first, none, f[0]);
    lemma_run_continues(generator, start, first, none.push(f[0]), f[1]);
    lemma_run_continues(generator, start, first, none.push(f[0]).push(f[1]), f[2]);
    lemma_run_continues(generator, start, first, none.push(f[0]).push(f[1]).push(f[2]), f[3]);
    lemma_run_continues(
        generator,
        start,
        first,
        none.push(f[0]).push(f[1]).push(f[2]).push(f[3]),
        f[4],
    );
}

/// Where the version cache could not be read or holds no threshold, the relay
/// selector is asked to prefer the new protocol, whatever number from the unit
/// interval the installation drew.
pub proof fn lemma_missing_threshold_selects_with_the_new_protocol(
    generator: GeneratorView,
    retry_attempt: u32,
    cache: Option<VersionCache>,
    draw: Binary32,
    stored: bool,
    device: AccountAndDevice,
)
    requires
        cache is None || cache->0.threshold is None,
        draw.in_unit_interval(),
    ensures
        ({
            let asked = (
                generator,
                ProgressView::Pending(
                    Generation { retry_attempt, stage: Stage::Relay },
                    Request::SelectRelay { retry_attempt, default_to_new_protocol: true },
                ),
            );
            &&& generator.generate(retry_attempt, replies_with_stored_draw(cache, draw, device))
                == asked
            &&& generator.generate(
                retry_attempt,
                replies_with_fresh_draw(cache, draw, stored, device),
            ) == asked
        }),
{
    lemma_selector_is_asked_with_the_decision(
        generator,
        retry_attempt,
        cache,
        draw,
        stored,
        device,
    );
    lemma_missing_threshold_prefers_new_protocol(cache, draw);
}

/// Under a threshold of zero the relay selector is never asked to prefer the
/// new protocol, whatever number that is at least zero the installation drew.
pub proof fn lemma_zero_threshold_selects_without_the_new_protocol(
    generator: GeneratorView,
    retry_attempt: u32,
    threshold: Binary32,
    draw: Binary32,
    stored: bool,
    device: AccountAndDevice,
)
    requires
        threshold.is_zero(),
        draw.is_non_negative(),
    ensures
        ({
            let cache = Some(VersionCache { threshold: Some(threshold) });
            let asked = (
                generator,
                ProgressView::Pending(
                    Generation { retry_attempt, stage: Stage::Relay },
                    Request::SelectRelay { retry_attempt, default_to_new_protocol: false },
                ),
            );
            &&& generator.generate(retry_attempt, replies_with_stored_draw(cache, draw, device))
                == asked
            &&& generator.generate(
                retry_attempt,
                replies_with_fresh_draw(cache, draw, stored, device),
            ) == asked
        }),
{
    let cache = Some(VersionCache { threshold: Some(threshold) });
    lemma_selector_is_asked_with_the_decision(
        generator,
        retry_attempt,
        cache,
        draw,
        stored,
        device,
    );
    lemma_zero_threshold_never_prefers_new_protocol(draw, threshold);
}

/// A generation for a client that is logged in, for which the relay selector
/// chose a relay of the relay list, succeeds: it ends with the parameters of
/// a tunnel to that relay for the device that was named last, under the
/// options in force, and the generator then remembers the selected relays.
pub proof fn lemma_generation_for_a_listed_relay_succeeds(
    generator: GeneratorView,
    retry_attempt: u32,
    cache: Option<VersionCache>,
    draw: Binary32,
    device: AccountAndDevice,
    relay: NormalSelectedRelay,
    bridge: Option<SelectedBridge>,
    obfuscator: Option<SelectedObfuscator>,
    data: AccountAndDevice,
)
    ensures
        generator.generate(
            retry_attempt,
            replies_with_stored_draw(cache, draw, device).push(
                Reply::Relay(
                    Ok(Selection { relay: SelectedRelay::Normal(relay), bridge, obfuscator }),
                ),
            ).push(Reply::Device(Some(data))),
        ) == (
            generator.remembering(
                relays_selected(
                    relay.exit_relay,
                    relay.entry_relay,
                    relay.endpoint,
                    bridge,
                    obfuscator,
                ),
            ),
            ProgressView::Done(
                Ok(
                    parameters_for(
                        generator.tunnel_options,
                        relay.endpoint,
                        bridge,
                        obfuscator,
                        data,
                    ),
                ),
            ),
        ),
{
    let start = Generation::initial(retry_attempt);
    let first = Request::LoadVersionCache;
    let asked = replies_with_stored_draw(cache, draw, device);
    let selected = Reply::Relay(
        Ok(Selection { relay: SelectedRelay::Normal(relay), bridge, obfuscator }),
    );
    lemma_selector_is_asked_with_the_decision(generator, retry_attempt, cache, draw, true, device);
    lemma_run_continues(generator, start, first, asked, selected);
    lemma_run_continues(generator, start, first, asked.push(selected), Reply::Device(Some(data)));
}

/// Every reply that a generation was waiting for brings it nearer to its end,
/// and a reply of another kind leaves it where it was. So a generation asks
/// for nothing twice: it retries nothing, and it is over after seven replies
/// at most. The attempt that it was begun for stays the same throughout.
pub proof fn lemma_generation_makes_progress(
    before: GeneratorView,
    generation: Generation,
    reply: Reply,
)
    ensures
        ({
            let progress = before.step(generation, reply).1;
            &&& progress matches ProgressView::Pending(next, _) ==> {
                &&& next.stage.replies_left() < generation.stage.replies_left()
                &&& next.retry_attempt == generation.retry_attempt
            }
            &&& progress matches ProgressView::Mismatch(same) ==> same == generation
            &&& progress is Mismatch <==> !generation.awaits(reply)
        }),
{
}

/// The relay selector is asked only after the account manager has named a
/// device, and parameters are built only for a device that it named after the
/// selection.
pub proof fn lemma_selection_needs_a_device(
    before: GeneratorView,
    generation: Generation,
    reply: Reply,
)
    ensures
        ({
            let progress = before.step(generation, reply).1;
            &&& progress matches ProgressView::Pending(_, Request::SelectRelay { .. })
                ==> generation.stage is Device && reply.names_device()
            &&& progress.succeeded() ==> {
                ||| generation.stage is DeviceForParameters && reply.names_device()
                ||| generation.stage is CustomResolution && reply.brings_parameters()
            }
        }),
{
}

/// Without a device no relay is selected: the generation fails with
/// `NoAuthDetails`, whether it asked for the device to see that the client is
/// logged in or to build parameters.
pub proof fn lemma_no_device_is_no_auth_details(before: GeneratorView, generation: Generation)
    requires
        generation.stage is Device || generation.stage is DeviceForParameters,
    ensures
        before.step(generation, Reply::Device(None)) == (
            before,
            ProgressView::Done(Err(Error::NoAuthDetails)),
        ),
{
}

} // verus!
