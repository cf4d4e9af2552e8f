use vstd::prelude::*;

use crate::simulation::civilian::career::wage_for;
use crate::simulation::civilian::contacts::{
    domain_set, domain_set_log, influence_adjusted, level_set, level_set_log, raw_bond_after, raw_influence_after,
    relation_set, relation_set_log, relationship_adjusted, upsert_log, upserted, with_contact_log,
};
use crate::simulation::civilian::life::{
    advance_education_if_ready, align_education_with_life_stage, apply_career_progression, career_progressed,
    changed_to, compensation_synced, education_advanced, education_aligned, mutation_updated, network_rewards_for,
    rebuild_social_web, sync_career_compensation, sync_housing_rent, tier_for, update_civilian_tier,
    update_mutation_status, update_network_rewards, update_routine_schedule, web_for, lemma_wf_compensation,
};
use crate::simulation::civilian::names::{
    contact_domain_named, education_level_label, education_level_name, education_level_named, flag_label,
    flag_named, flag_text, job_role_label, job_role_name, job_role_named, job_status_label, job_status_name,
    job_status_named, life_stage_label, life_stage_name, life_stage_named, parse_bool_flag, parse_contact_domain,
    parse_education_level, parse_job_role, parse_job_status, parse_life_stage, parse_relation_type,
    parse_relationship_level, relation_type_named, relationship_level_named,
};
use crate::simulation::civilian::routine::routine_blocks;
use crate::simulation::civilian::{
    civ_wf, clamp_metric, clamp_progress, in_metric, life_stage_for_age, metric, neighborhood_index,
    neighborhood_profile, neighborhood_spec, progress_clamped, same_records, stage_for_age, CivView, CivilianFinances,
    CivilianState, ContactDomain, ContactView, EducationLevel, JobRole, JobStatus, LifeState, RelationType,
    RelationshipLevel,
};
use crate::text::{
    concat3, concat4, concat_str, copy_str, parse_i32, parsed_i32, signed_decimal, signed_decimal_text, split_char, split_pieces,
    str_eq, trim, trim_chars, views,
};

verus! {

broadcast use vstd::string::group_string_axioms;

/// What the effects applied so far call for once they are all in.
#[derive(Debug, Clone, Copy, PartialEq, Eq, Structural)]
pub struct EffectFlags {
    pub career: bool,
    pub job_status: bool,
    pub wage_override: bool,
    pub housing: bool,
    pub life: bool,
    pub education: bool,
    pub routine: bool,
}

pub open spec fn no_flags() -> EffectFlags {
    EffectFlags {
        career: false,
        job_status: false,
        wage_override: false,
        housing: false,
        life: false,
        education: false,
        routine: false,
    }
}

/// The `i`th piece of an effect, if there is one.
pub open spec fn arg(ps: Seq<Seq<char>>, i: int) -> Option<Seq<char>> {
    if 0 <= i < ps.len() {
        Some(ps[i])
    } else {
        None
    }
}

/// The delta an effect's argument gives, when it reads as an `i32`.
pub open spec fn delta_of(a: Option<Seq<char>>) -> Option<i32> {
    match a {
        Some(x) => parsed_i32(trim_chars(x)),
        None => None,
    }
}

/// A value moved by an optional delta.
pub open spec fn plus(x: i32, d: Option<i32>) -> int {
    match d {
        Some(y) => x + y,
        None => x as int,
    }
}

/// The value moved by the delta still fits an `i32`.
pub open spec fn fits(x: i32, d: Option<i32>) -> bool {
    i32::MIN <= plus(x, d) <= i32::MAX
}

/// The message noting a delta.
pub open spec fn delta_log(label: Seq<char>, d: Option<i32>) -> Seq<Seq<char>> {
    match d {
        Some(y) => seq![label + " "@ + signed_decimal(y as int)],
        None => Seq::empty(),
    }
}

/// A value moved by an optional delta and kept within `0..=100`.
pub open spec fn metric_plus(x: i32, d: Option<i32>) -> i32 {
    metric(plus(x, d))
}

/// The view of an optional piece.
pub open spec fn opt_view(o: Option<&str>) -> Option<Seq<char>> {
    match o {
        Some(s) => Some(s@),
        None => None,
    }
}

pub open spec fn is_finance_key(k: Seq<char>) -> bool {
    k == "cash"@ || k == "debt"@ || k == "rent_due_in"@ || k == "wage"@
}

/// Cash, debt, days until rent and wage move by the delta; a wage effect also keeps
/// the wage from being reset by the career afterwards.
pub open spec fn finance_step(v: CivView, f: EffectFlags, k: Seq<char>, ps: Seq<Seq<char>>) -> (CivView, EffectFlags, Seq<Seq<char>>) {
    let d = delta_of(arg(ps, 1));
    let fin = v.finances;
    if k == "cash"@ {
        (CivView { finances: CivilianFinances { cash: plus(fin.cash, d) as i32, ..fin }, ..v }, f, delta_log("cash"@, d))
    } else if k == "debt"@ {
        (CivView { finances: CivilianFinances { debt: plus(fin.debt, d) as i32, ..fin }, ..v }, f, delta_log("debt"@, d))
    } else if k == "rent_due_in"@ {
        (
            CivView { finances: CivilianFinances { rent_due_in: plus(fin.rent_due_in, d) as i32, ..fin }, ..v },
            f,
            delta_log("rent_due_in"@, d),
        )
    } else {
        (
            CivView { finances: CivilianFinances { wage: plus(fin.wage, d) as i32, ..fin }, ..v },
            EffectFlags { wage_override: true, ..f },
            delta_log("wage"@, d),
        )
    }
}

pub open spec fn finance_fits(v: CivView, k: Seq<char>, ps: Seq<Seq<char>>) -> bool {
    let d = delta_of(arg(ps, 1));
    if k == "cash"@ {
        fits(v.finances.cash, d)
    } else if k == "debt"@ {
        fits(v.finances.debt, d)
    } else if k == "rent_due_in"@ {
        fits(v.finances.rent_due_in, d)
    } else {
        fits(v.finances.wage, d)
    }
}

/// The piece at `i`, if there is one.
fn part(parts: &Vec<String>, i: usize) -> (r: Option<&str>)
    ensures
        opt_view(r) == arg(views(parts@), i as int),
{
    if i < parts.len() {
        Some(parts[i].as_str())
    } else {
        None
    }
}

/// Moves `target` by the delta the argument gives, noting it under `label`.
fn apply_delta_at(target: &mut i32, value: Option<&str>, applied: &mut Vec<String>, label: &str)
    requires
        fits(*old(target), delta_of(opt_view(value))),
    ensures
        *final(target) == plus(*old(target), delta_of(opt_view(value))),
        views(final(applied)@) == views(old(applied)@) + delta_log(label@, delta_of(opt_view(value))),
{
    let ghost log0 = views(applied@);
    if let Some(v) = value {
        if let Some(delta) = parse_i32(trim(v)) {
            *target = *target + delta;
            let mut msg = concat3(label, " ", signed_decimal_text(delta as i64).as_str());
            applied.push(msg);
            assert(views(applied@) =~= log0 + delta_log(label@, delta_of(opt_view(value))));
            return;
        }
    }
    assert(views(applied@) =~= log0 + delta_log(label@, delta_of(opt_view(value))));
}

/// Moves an unsigned `target` by the delta the argument gives, not below zero,
/// noting it under `label`.
fn apply_delta_at_u32(target: &mut u32, value: Option<&str>, applied: &mut Vec<String>, label: &str)
    requires
        delta_of(opt_view(value)) matches Some(y) ==> *old(target) <= i32::MAX && i32::MIN <= *old(target) + y <= i32::MAX,
    ensures
        *final(target) == match delta_of(opt_view(value)) {
            Some(y) => (if *old(target) + y >= 0 { *old(target) + y } else { 0 }) as u32,
            None => *old(target),
        },
        views(final(applied)@) == views(old(applied)@) + delta_log(label@, delta_of(opt_view(value))),
{
    let ghost log0 = views(applied@);
    if let Some(v) = value {
        if let Some(delta) = parse_i32(trim(v)) {
            let next: i32 = *target as i32 + delta;
            *target = if next >= 0 { next as u32 } else { 0 };
            applied.push(concat3(label, " ", signed_decimal_text(delta as i64).as_str()));
            assert(views(applied@) =~= log0 + delta_log(label@, delta_of(opt_view(value))));
            return;
        }
    }
    assert(views(applied@) =~= log0 + delta_log(label@, delta_of(opt_view(value))));
}

fn finance_effect(state: &mut CivilianState, key: &str, parts: &Vec<String>, applied: &mut Vec<String>, flags: &mut EffectFlags)
    requires
        is_finance_key(key@),
        finance_fits(old(state)@, key@, views(parts@)),
    ensures
        changed_to(*old(state), *final(state), finance_step(old(state)@, *old(flags), key@, views(parts@)).0),
        *final(flags) == finance_step(old(state)@, *old(flags), key@, views(parts@)).1,
        views(final(applied)@) == views(old(applied)@) + finance_step(old(state)@, *old(flags), key@, views(parts@)).2,
{
    let value = part(parts, 1);
    if str_eq(key, "cash") {
        apply_delta_at(&mut state.finances.cash, value, applied, "cash");
    } else if str_eq(key, "debt") {
        apply_delta_at(&mut state.finances.debt, value, applied, "debt");
    } else if str_eq(key, "rent_due_in") {
        apply_delta_at(&mut state.finances.rent_due_in, value, applied, "rent_due_in");
    } else {
        flags.wage_override = true;
        apply_delta_at(&mut state.finances.wage, value, applied, "wage");
    }
}

pub open spec fn is_housing_key(k: Seq<char>) -> bool {
    k == "housing_rent"@ || k == "housing_stability"@ || k == "housing_safety"@ || k == "housing_privacy"@
        || k == "housing_neighborhood"@ || k == "relocation_cooldown"@
}

/// Housing after moving to neighbourhood `id`: a known one brings its rent and
/// qualities, an unknown one only its name.
pub open spec fn moved_to(v: CivView, id: Seq<char>) -> (CivView, Seq<Seq<char>>) {
    match neighborhood_index(id) {
        Some(i) => {
            let (nid, label, rent, stability, safety, privacy) = neighborhood_spec(i);
            (
                CivView {
                    housing: crate::simulation::civilian::HousingView {
                        neighborhood_id: nid,
                        rent: if rent >= 0 { rent } else { 0 },
                        stability: metric(stability as int),
                        safety: metric(safety as int),
                        privacy: metric(privacy as int),
                        ..v.housing
                    },
                    ..v
                },
                seq!["housing neighborhood -> "@ + nid + " ("@ + label + ")"@],
            )
        },
        None => (
            CivView { housing: crate::simulation::civilian::HousingView { neighborhood_id: id, ..v.housing }, ..v },
            seq!["housing neighborhood -> "@ + id],
        ),
    }
}

/// Rent and relocation cooldown move by the delta and stay non-negative; the
/// qualities of the home move within `0..=100`; a neighbourhood effect moves house.
pub open spec fn housing_step(v: CivView, f: EffectFlags, k: Seq<char>, ps: Seq<Seq<char>>) -> (CivView, EffectFlags, Seq<Seq<char>>) {
    let d = delta_of(arg(ps, 1));
    let h = v.housing;
    let fh = EffectFlags { housing: true, ..f };
    if k == "housing_rent"@ {
        let r = plus(h.rent, d);
        (
            CivView { housing: crate::simulation::civilian::HousingView { rent: (if r >= 0 { r } else { 0 }) as i32, ..h }, ..v },
            fh,
            delta_log("housing_rent"@, d),
        )
    } else if k == "housing_stability"@ {
        (
            CivView { housing: crate::simulation::civilian::HousingView { stability: metric_plus(h.stability, d), ..h }, ..v },
            fh,
            delta_log("housing_stability"@, d),
        )
    } else if k == "housing_safety"@ {
        (
            CivView { housing: crate::simulation::civilian::HousingView { safety: metric_plus(h.safety, d), ..h }, ..v },
            fh,
            delta_log("housing_safety"@, d),
        )
    } else if k == "housing_privacy"@ {
        (
            CivView { housing: crate::simulation::civilian::HousingView { privacy: metric_plus(h.privacy, d), ..h }, ..v },
            fh,
            delta_log("housing_privacy"@, d),
        )
    } else if k == "housing_neighborhood"@ {
        match arg(ps, 1) {
            Some(x) => if trim_chars(x).len() > 0 {
                let (v1, log) = moved_to(v, trim_chars(x));
                (v1, fh, log)
            } else {
                (v, f, Seq::empty())
            },
            None => (v, f, Seq::empty()),
        }
    } else {
        let r = plus(h.relocation_cooldown, d);
        (
            CivView {
                housing: crate::simulation::civilian::HousingView {
                    relocation_cooldown: (if r >= 0 { r } else { 0 }) as i32,
                    ..h
                },
                ..v
            },
            f,
            delta_log("relocation_cooldown"@, d),
        )
    }
}

pub open spec fn housing_fits(v: CivView, k: Seq<char>, ps: Seq<Seq<char>>) -> bool {
    let d = delta_of(arg(ps, 1));
    if k == "housing_rent"@ {
        fits(v.housing.rent, d)
    } else if k == "housing_stability"@ {
        fits(v.housing.stability, d)
    } else if k == "housing_safety"@ {
        fits(v.housing.safety, d)
    } else if k == "housing_privacy"@ {
        fits(v.housing.privacy, d)
    } else if k == "housing_neighborhood"@ {
        true
    } else {
        fits(v.housing.relocation_cooldown, d)
    }
}

/// Moves to a neighbourhood, known or not; it always changes the home.
pub fn apply_neighborhood_profile(state: &mut CivilianState, id: &str, applied: &mut Vec<String>) -> (changed: bool)
    ensures
        changed,
        changed_to(*old(state), *final(state), moved_to(old(state)@, id@).0),
        views(final(applied)@) == views(old(applied)@) + moved_to(old(state)@, id@).1,
{
    let ghost log0 = views(applied@);
    match neighborhood_profile(id) {
        Some(p) => {
            state.housing.neighborhood_id = copy_str(p.id);
            state.housing.rent = if p.rent >= 0 { p.rent } else { 0 };
            state.housing.stability = clamp_metric(p.stability);
            state.housing.safety = clamp_metric(p.safety);
            state.housing.privacy = clamp_metric(p.privacy);
            let mut msg = concat4("housing neighborhood -> ", p.id, " (", p.label);
            msg.append(")");
            applied.push(msg);
            assert(views(applied@) =~= log0 + moved_to(old(state)@, id@).1);
        },
        None => {
            state.housing.neighborhood_id = copy_str(id);
            applied.push(concat_str("housing neighborhood -> ", id));
            assert(views(applied@) =~= log0 + moved_to(old(state)@, id@).1);
        },
    }
    true
}

fn housing_effect(state: &mut CivilianState, key: &str, parts: &Vec<String>, applied: &mut Vec<String>, flags: &mut EffectFlags)
    requires
        is_housing_key(key@),
        housing_fits(old(state)@, key@, views(parts@)),
    ensures
        changed_to(*old(state), *final(state), housing_step(old(state)@, *old(flags), key@, views(parts@)).0),
        *final(flags) == housing_step(old(state)@, *old(flags), key@, views(parts@)).1,
        views(final(applied)@) == views(old(applied)@) + housing_step(old(state)@, *old(flags), key@, views(parts@)).2,
{
    let value = part(parts, 1);
    if str_eq(key, "housing_rent") {
        apply_delta_at(&mut state.housing.rent, value, applied, "housing_rent");
        state.housing.rent = if state.housing.rent >= 0 { state.housing.rent } else { 0 };
        flags.housing = true;
    } else if str_eq(key, "housing_stability") {
        apply_delta_at(&mut state.housing.stability, value, applied, "housing_stability");
        state.housing.stability = clamp_metric(state.housing.stability);
        flags.housing = true;
    } else if str_eq(key, "housing_safety") {
        apply_delta_at(&mut state.housing.safety, value, applied, "housing_safety");
        state.housing.safety = clamp_metric(state.housing.safety);
        flags.housing = true;
    } else if str_eq(key, "housing_privacy") {
        apply_delta_at(&mut state.housing.privacy, value, applied, "housing_privacy");
        state.housing.privacy = clamp_metric(state.housing.privacy);
        flags.housing = true;
    } else if str_eq(key, "housing_neighborhood") {
        if let Some(v) = value {
            let id = trim(v);
            if id.unicode_len() > 0 {
                apply_neighborhood_profile(state, id, applied);
                flags.housing = true;
            }
        }
    } else {
        apply_delta_at(&mut state.housing.relocation_cooldown, value, applied, "relocation_cooldown");
        state.housing.relocation_cooldown = if state.housing.relocation_cooldown >= 0 {
            state.housing.relocation_cooldown
        } else {
            0
        };
    }
}

pub open spec fn is_life_key(k: Seq<char>) -> bool {
    k == "age"@ || k == "age_years"@ || k == "life_stage"@ || k == "mutant_gene"@ || k == "mutation_ready"@
}

/// The age moves by the delta and stays non-negative; the life stage and the gene
/// flags are set when their argument names a value.
pub open spec fn life_step(v: CivView, f: EffectFlags, k: Seq<char>, ps: Seq<Seq<char>>) -> (CivView, EffectFlags, Seq<Seq<char>>) {
    let l = v.life;
    let fl = EffectFlags { life: true, ..f };
    if k == "age"@ || k == "age_years"@ {
        let d = delta_of(arg(ps, 1));
        match d {
            Some(y) => {
                let n = l.age_years + y;
                (
                    CivView { life: LifeState { age_years: (if n >= 0 { n } else { 0 }) as u32, ..l }, ..v },
                    fl,
                    delta_log("age_years"@, d),
                )
            },
            None => (v, fl, Seq::empty()),
        }
    } else if k == "life_stage"@ {
        match arg(ps, 1) {
            Some(x) => match life_stage_named(x) {
                Some(s) => (CivView { life: LifeState { life_stage: s, ..l }, ..v }, fl, seq!["life_stage -> "@ + life_stage_name(s)]),
                None => (v, f, Seq::empty()),
            },
            None => (v, f, Seq::empty()),
        }
    } else if k == "mutant_gene"@ {
        match arg(ps, 1) {
            Some(x) => match flag_named(x) {
                Some(b) => (CivView { life: LifeState { mutant_gene: b, ..l }, ..v }, fl, seq!["mutant_gene -> "@ + flag_text(b)]),
                None => (v, f, Seq::empty()),
            },
            None => (v, f, Seq::empty()),
        }
    } else {
        match arg(ps, 1) {
            Some(x) => match flag_named(x) {
                Some(b) => (CivView { life: LifeState { mutation_ready: b, ..l }, ..v }, fl, seq!["mutation_ready -> "@ + flag_text(b)]),
                None => (v, f, Seq::empty()),
            },
            None => (v, f, Seq::empty()),
        }
    }
}

pub open spec fn life_fits(v: CivView, k: Seq<char>, ps: Seq<Seq<char>>) -> bool {
    (k == "age"@ || k == "age_years"@) ==> match delta_of(arg(ps, 1)) {
        Some(y) => v.life.age_years <= i32::MAX && v.life.age_years + y <= i32::MAX && v.life.age_years + y >= i32::MIN,
        None => true,
    }
}

fn life_effect(state: &mut CivilianState, key: &str, parts: &Vec<String>, applied: &mut Vec<String>, flags: &mut EffectFlags)
    requires
        is_life_key(key@),
        life_fits(old(state)@, key@, views(parts@)),
    ensures
        changed_to(*old(state), *final(state), life_step(old(state)@, *old(flags), key@, views(parts@)).0),
        *final(flags) == life_step(old(state)@, *old(flags), key@, views(parts@)).1,
        views(final(applied)@) == views(old(applied)@) + life_step(old(state)@, *old(flags), key@, views(parts@)).2,
{
    let ghost log0 = views(applied@);
    let value = part(parts, 1);
    if str_eq(key, "age") || str_eq(key, "age_years") {
        apply_delta_at_u32(&mut state.life.age_years, value, applied, "age_years");
        flags.life = true;
        assert(views(applied@) =~= log0 + life_step(old(state)@, *old(flags), key@, views(parts@)).2);
    } else if str_eq(key, "life_stage") {
        if let Some(v) = value {
            if let Some(stage) = parse_life_stage(v) {
                state.life.life_stage = stage;
                applied.push(concat_str("life_stage -> ", life_stage_label(stage)));
                flags.life = true;
            }
        }
        assert(views(applied@) =~= log0 + life_step(old(state)@, *old(flags), key@, views(parts@)).2);
    } else if str_eq(key, "mutant_gene") {
        if let Some(v) = value {
            if let Some(b) = parse_bool_flag(v) {
                state.life.mutant_gene = b;
                applied.push(concat_str("mutant_gene -> ", flag_label(b)));
                flags.life = true;
            }
        }
        assert(views(applied@) =~= log0 + life_step(old(state)@, *old(flags), key@, views(parts@)).2);
    } else {
        if let Some(v) = value {
            if let Some(b) = parse_bool_flag(v) {
                state.life.mutation_ready = b;
                applied.push(concat_str("mutation_ready -> ", flag_label(b)));
                flags.life = true;
            }
        }
        assert(views(applied@) =~= log0 + life_step(old(state)@, *old(flags), key@, views(parts@)).2);
    }
}

pub open spec fn is_metric_key(k: Seq<char>) -> bool {
    k == "health_stress"@
        || k == "health_sleep_debt"@
        || k == "health_fitness"@
        || k == "health_injuries"@
        || k == "support"@
        || k == "strain"@
        || k == "obligation"@
        || k == "career"@
        || k == "community"@
        || k == "media"@
        || k == "income_boost"@
        || k == "safehouse"@
        || k == "access"@
        || k == "intel"@
        || k == "favors"@
        || k == "job_satisfaction"@
        || k == "job_stability"@
        || k == "education_progress"@
        || k == "education_attendance"@
        || k == "education_dropout_risk"@
}

/// A metric of health, ties, reputation, rewards, the job or schooling moves by the
/// delta and stays within `0..=100`; health effects call for a new routine and
/// schooling effects for a schooling check.
pub open spec fn metric_step(v: CivView, f: EffectFlags, k: Seq<char>, ps: Seq<Seq<char>>) -> (CivView, EffectFlags, Seq<Seq<char>>) {
    let d = delta_of(arg(ps, 1));
    if k == "health_stress"@ {
        (CivView { health: crate::simulation::civilian::CivilianHealth { stress: metric_plus(v.health.stress, d), ..v.health }, ..v }, EffectFlags { routine: true, ..f }, delta_log("health_stress"@, d))
    } else if k == "health_sleep_debt"@ {
        (CivView { health: crate::simulation::civilian::CivilianHealth { sleep_debt: metric_plus(v.health.sleep_debt, d), ..v.health }, ..v }, EffectFlags { routine: true, ..f }, delta_log("health_sleep_debt"@, d))
    } else if k == "health_fitness"@ {
        (CivView { health: crate::simulation::civilian::CivilianHealth { fitness: metric_plus(v.health.fitness, d), ..v.health }, ..v }, EffectFlags { routine: true, ..f }, delta_log("health_fitness"@, d))
    } else if k == "health_injuries"@ {
        (CivView { health: crate::simulation::civilian::CivilianHealth { injuries: metric_plus(v.health.injuries, d), ..v.health }, ..v }, EffectFlags { routine: true, ..f }, delta_log("health_injuries"@, d))
    } else if k == "support"@ {
        (CivView { social: crate::simulation::civilian::SocialTies { support: metric_plus(v.social.support, d), ..v.social }, ..v }, f, delta_log("support"@, d))
    } else if k == "strain"@ {
        (CivView { social: crate::simulation::civilian::SocialTies { strain: metric_plus(v.social.strain, d), ..v.social }, ..v }, f, delta_log("strain"@, d))
    } else if k == "obligation"@ {
        (CivView { social: crate::simulation::civilian::SocialTies { obligation: metric_plus(v.social.obligation, d), ..v.social }, ..v }, f, delta_log("obligation"@, d))
    } else if k == "career"@ {
        (CivView { reputation: crate::simulation::civilian::ReputationTrack { career: metric_plus(v.reputation.career, d), ..v.reputation }, ..v }, f, delta_log("career"@, d))
    } else if k == "community"@ {
        (CivView { reputation: crate::simulation::civilian::ReputationTrack { community: metric_plus(v.reputation.community, d), ..v.reputation }, ..v }, f, delta_log("community"@, d))
    } else if k == "media"@ {
        (CivView { reputation: crate::simulation::civilian::ReputationTrack { media: metric_plus(v.reputation.media, d), ..v.reputation }, ..v }, f, delta_log("media"@, d))
    } else if k == "income_boost"@ {
        (CivView { rewards: crate::simulation::civilian::CivilianRewards { income_boost: metric_plus(v.rewards.income_boost, d), ..v.rewards }, ..v }, f, delta_log("income_boost"@, d))
    } else if k == "safehouse"@ {
        (CivView { rewards: crate::simulation::civilian::CivilianRewards { safehouse: metric_plus(v.rewards.safehouse, d), ..v.rewards }, ..v }, f, delta_log("safehouse"@, d))
    } else if k == "access"@ {
        (CivView { rewards: crate::simulation::civilian::CivilianRewards { access: metric_plus(v.rewards.access, d), ..v.rewards }, ..v }, f, delta_log("access"@, d))
    } else if k == "intel"@ {
        (CivView { rewards: crate::simulation::civilian::CivilianRewards { intel: metric_plus(v.rewards.intel, d), ..v.rewards }, ..v }, f, delta_log("intel"@, d))
    } else if k == "favors"@ {
        (CivView { rewards: crate::simulation::civilian::CivilianRewards { favors: metric_plus(v.rewards.favors, d), ..v.rewards }, ..v }, f, delta_log("favors"@, d))
    } else if k == "job_satisfaction"@ {
        (CivView { job: crate::simulation::civilian::CivilianJob { satisfaction: metric_plus(v.job.satisfaction, d), ..v.job }, ..v }, f, delta_log("job_satisfaction"@, d))
    } else if k == "job_stability"@ {
        (CivView { job: crate::simulation::civilian::CivilianJob { stability: metric_plus(v.job.stability, d), ..v.job }, ..v }, f, delta_log("job_stability"@, d))
    } else if k == "education_progress"@ {
        (CivView { education: crate::simulation::civilian::EducationTrack { progress: metric_plus(v.education.progress, d), ..v.education }, ..v }, EffectFlags { education: true, ..f }, delta_log("education_progress"@, d))
    } else if k == "education_attendance"@ {
        (CivView { education: crate::simulation::civilian::EducationTrack { attendance: metric_plus(v.education.attendance, d), ..v.education }, ..v }, EffectFlags { education: true, ..f }, delta_log("education_attendance"@, d))
    } else {
        (CivView { education: crate::simulation::civilian::EducationTrack { dropout_risk: metric_plus(v.education.dropout_risk, d), ..v.education }, ..v }, EffectFlags { education: true, ..f }, delta_log("education_dropout_risk"@, d))
    }
}

pub open spec fn metric_fits(v: CivView, k: Seq<char>, ps: Seq<Seq<char>>) -> bool {
    let d = delta_of(arg(ps, 1));
    if k == "health_stress"@ {
        fits(v.health.stress, d)
    } else if k == "health_sleep_debt"@ {
        fits(v.health.sleep_debt, d)
    } else if k == "health_fitness"@ {
        fits(v.health.fitness, d)
    } else if k == "health_injuries"@ {
        fits(v.health.injuries, d)
    } else if k == "support"@ {
        fits(v.social.support, d)
    } else if k == "strain"@ {
        fits(v.social.strain, d)
    } else if k == "obligation"@ {
        fits(v.social.obligation, d)
    } else if k == "career"@ {
        fits(v.reputation.career, d)
    } else if k == "community"@ {
        fits(v.reputation.community, d)
    } else if k == "media"@ {
        fits(v.reputation.media, d)
    } else if k == "income_boost"@ {
        fits(v.rewards.income_boost, d)
    } else if k == "safehouse"@ {
        fits(v.rewards.safehouse, d)
    } else if k == "access"@ {
        fits(v.rewards.access, d)
    } else if k == "intel"@ {
        fits(v.rewards.intel, d)
    } else if k == "favors"@ {
        fits(v.rewards.favors, d)
    } else if k == "job_satisfaction"@ {
        fits(v.job.satisfaction, d)
    } else if k == "job_stability"@ {
        fits(v.job.stability, d)
    } else if k == "education_progress"@ {
        fits(v.education.progress, d)
    } else if k == "education_attendance"@ {
        fits(v.education.attendance, d)
    } else {
        fits(v.education.dropout_risk, d)
    }
}

fn metric_effect(state: &mut CivilianState, key: &str, parts: &Vec<String>, applied: &mut Vec<String>, flags: &mut EffectFlags)
    requires
        is_metric_key(key@),
        metric_fits(old(state)@, key@, views(parts@)),
    ensures
        changed_to(*old(state), *final(state), metric_step(old(state)@, *old(flags), key@, views(parts@)).0),
        *final(flags) == metric_step(old(state)@, *old(flags), key@, views(parts@)).1,
        views(final(applied)@) == views(old(applied)@) + metric_step(old(state)@, *old(flags), key@, views(parts@)).2,
{
    let value = part(parts, 1);
    if str_eq(key, "health_stress") {
        apply_delta_at(&mut state.health.stress, value, applied, "health_stress");
        state.health.stress = clamp_metric(state.health.stress);
        flags.routine = true;
    } else if str_eq(key, "health_sleep_debt") {
        apply_delta_at(&mut state.health.sleep_debt, value, applied, "health_sleep_debt");
        state.health.sleep_debt = clamp_metric(state.health.sleep_debt);
        flags.routine = true;
    } else if str_eq(key, "health_fitness") {
        apply_delta_at(&mut state.health.fitness, value, applied, "health_fitness");
        state.health.fitness = clamp_metric(state.health.fitness);
        flags.routine = true;
    } else if str_eq(key, "health_injuries") {
        apply_delta_at(&mut state.health.injuries, value, applied, "health_injuries");
        state.health.injuries = clamp_metric(state.health.injuries);
        flags.routine = true;
    } else if str_eq(key, "support") {
        apply_delta_at(&mut state.social.support, value, applied, "support");
        state.social.support = clamp_metric(state.social.support);
    } else if str_eq(key, "strain") {
        apply_delta_at(&mut state.social.strain, value, applied, "strain");
        state.social.strain = clamp_metric(state.social.strain);
    } else if str_eq(key, "obligation") {
        apply_delta_at(&mut state.social.obligation, value, applied, "obligation");
        state.social.obligation = clamp_metric(state.social.obligation);
    } else if str_eq(key, "career") {
        apply_delta_at(&mut state.reputation.career, value, applied, "career");
        state.reputation.career = clamp_metric(state.reputation.career);
    } else if str_eq(key, "community") {
        apply_delta_at(&mut state.reputation.community, value, applied, "community");
        state.reputation.community = clamp_metric(state.reputation.community);
    } else if str_eq(key, "media") {
        apply_delta_at(&mut state.reputation.media, value, applied, "media");
        state.reputation.media = clamp_metric(state.reputation.media);
    } else if str_eq(key, "income_boost") {
        apply_delta_at(&mut state.rewards.income_boost, value, applied, "income_boost");
        state.rewards.income_boost = clamp_metric(state.rewards.income_boost);
    } else if str_eq(key, "safehouse") {
        apply_delta_at(&mut state.rewards.safehouse, value, applied, "safehouse");
        state.rewards.safehouse = clamp_metric(state.rewards.safehouse);
    } else if str_eq(key, "access") {
        apply_delta_at(&mut state.rewards.access, value, applied, "access");
        state.rewards.access = clamp_metric(state.rewards.access);
    } else if str_eq(key, "intel") {
        apply_delta_at(&mut state.rewards.intel, value, applied, "intel");
        state.rewards.intel = clamp_metric(state.rewards.intel);
    } else if str_eq(key, "favors") {
        apply_delta_at(&mut state.rewards.favors, value, applied, "favors");
        state.rewards.favors = clamp_metric(state.rewards.favors);
    } else if str_eq(key, "job_satisfaction") {
        apply_delta_at(&mut state.job.satisfaction, value, applied, "job_satisfaction");
        state.job.satisfaction = clamp_metric(state.job.satisfaction);
    } else if str_eq(key, "job_stability") {
        apply_delta_at(&mut state.job.stability, value, applied, "job_stability");
        state.job.stability = clamp_metric(state.job.stability);
    } else if str_eq(key, "education_progress") {
        apply_delta_at(&mut state.education.progress, value, applied, "education_progress");
        state.education.progress = clamp_metric(state.education.progress);
        flags.education = true;
    } else if str_eq(key, "education_attendance") {
        apply_delta_at(&mut state.education.attendance, value, applied, "education_attendance");
        state.education.attendance = clamp_metric(state.education.attendance);
        flags.education = true;
    } else {
        apply_delta_at(&mut state.education.dropout_risk, value, applied, "education_dropout_risk");
        state.education.dropout_risk = clamp_metric(state.education.dropout_risk);
        flags.education = true;
    }
}

pub open spec fn is_schooling_key(k: Seq<char>) -> bool {
    k == "education_level"@ || k == "education_credits"@ || k == "education_enrolled"@
}

/// The schooling level and enrolment are set when their argument names a value;
/// credits move by the delta.
pub open spec fn schooling_step(v: CivView, f: EffectFlags, k: Seq<char>, ps: Seq<Seq<char>>) -> (CivView, EffectFlags, Seq<Seq<char>>) {
    let e = v.education;
    let fe = EffectFlags { education: true, ..f };
    if k == "education_level"@ {
        match arg(ps, 1) {
            Some(x) => match education_level_named(x) {
                Some(l) => (
                    CivView { education: crate::simulation::civilian::EducationTrack { level: l, ..e }, ..v },
                    fe,
                    seq!["education level -> "@ + education_level_name(l)],
                ),
                None => (v, f, Seq::empty()),
            },
            None => (v, f, Seq::empty()),
        }
    } else if k == "education_credits"@ {
        let d = delta_of(arg(ps, 1));
        (
            CivView { education: crate::simulation::civilian::EducationTrack { credits: plus(e.credits, d) as i32, ..e }, ..v },
            fe,
            delta_log("education_credits"@, d),
        )
    } else {
        match arg(ps, 1) {
            Some(x) => match flag_named(x) {
                Some(b) => (
                    CivView { education: crate::simulation::civilian::EducationTrack { is_enrolled: b, ..e }, ..v },
                    fe,
                    seq!["education enrolled -> "@ + flag_text(b)],
                ),
                None => (v, f, Seq::empty()),
            },
            None => (v, f, Seq::empty()),
        }
    }
}

pub open spec fn schooling_fits(v: CivView, k: Seq<char>, ps: Seq<Seq<char>>) -> bool {
    k == "education_credits"@ ==> fits(v.education.credits, delta_of(arg(ps, 1)))
}

fn schooling_effect(state: &mut CivilianState, key: &str, parts: &Vec<String>, applied: &mut Vec<String>, flags: &mut EffectFlags)
    requires
        is_schooling_key(key@),
        schooling_fits(old(state)@, key@, views(parts@)),
    ensures
        changed_to(*old(state), *final(state), schooling_step(old(state)@, *old(flags), key@, views(parts@)).0),
        *final(flags) == schooling_step(old(state)@, *old(flags), key@, views(parts@)).1,
        views(final(applied)@) == views(old(applied)@) + schooling_step(old(state)@, *old(flags), key@, views(parts@)).2,
{
    let ghost log0 = views(applied@);
    let value = part(parts, 1);
    if str_eq(key, "education_level") {
        if let Some(v) = value {
            if let Some(level) = parse_education_level(v) {
                state.education.level = level;
                applied.push(concat_str("education level -> ", education_level_label(level)));
                flags.education = true;
            }
        }
        assert(views(applied@) =~= log0 + schooling_step(old(state)@, *old(flags), key@, views(parts@)).2);
    } else if str_eq(key, "education_credits") {
        apply_delta_at(&mut state.education.credits, value, applied, "education_credits");
        flags.education = true;
    } else {
        if let Some(v) = value {
            if let Some(b) = parse_bool_flag(v) {
                state.education.is_enrolled = b;
                applied.push(concat_str("education enrolled -> ", flag_label(b)));
                flags.education = true;
            }
        }
        assert(views(applied@) =~= log0 + schooling_step(old(state)@, *old(flags), key@, views(parts@)).2);
    }
}

pub open spec fn is_job_key(k: Seq<char>) -> bool {
    k == "job"@ || k == "job_role"@ || k == "job_level"@ || k == "career_xp"@
}

/// The job status and role are set when their argument names one; the job level
/// moves by the delta within `0..=10`; experience moves within `0..=250`.
pub open spec fn job_step(v: CivView, f: EffectFlags, k: Seq<char>, ps: Seq<Seq<char>>) -> (CivView, EffectFlags, Seq<Seq<char>>) {
    let d = delta_of(arg(ps, 1));
    if k == "job"@ {
        match arg(ps, 1) {
            Some(x) => match job_status_named(trim_chars(x)) {
                Some(st) => (
                    CivView { job_status: st, ..v },
                    EffectFlags { career: true, job_status: true, routine: true, ..f },
                    seq!["job -> "@ + job_status_name(st)],
                ),
                None => (v, f, Seq::empty()),
            },
            None => (v, f, Seq::empty()),
        }
    } else if k == "job_role"@ {
        match arg(ps, 1) {
            Some(x) => match job_role_named(trim_chars(x)) {
                Some(r) => (
                    CivView { job: crate::simulation::civilian::CivilianJob { role: r, ..v.job }, ..v },
                    EffectFlags { career: true, ..f },
                    seq!["job role -> "@ + job_role_name(r)],
                ),
                None => (v, f, Seq::empty()),
            },
            None => (v, f, Seq::empty()),
        }
    } else if k == "job_level"@ {
        let n = plus(v.job.level, d);
        (
            CivView {
                job: crate::simulation::civilian::CivilianJob {
                    level: (if n < 0 { 0 } else if n > 10 { 10 } else { n }) as i32,
                    ..v.job
                },
                ..v
            },
            EffectFlags { career: true, ..f },
            delta_log("job_level"@, d),
        )
    } else {
        (CivView { career_xp: progress_clamped(plus(v.career_xp, d)), ..v }, f, delta_log("career_xp"@, d))
    }
}

pub open spec fn job_fits(v: CivView, k: Seq<char>, ps: Seq<Seq<char>>) -> bool {
    let d = delta_of(arg(ps, 1));
    &&& k == "job_level"@ ==> fits(v.job.level, d)
    &&& k == "career_xp"@ ==> fits(v.career_xp, d)
}

fn job_effect(state: &mut CivilianState, key: &str, parts: &Vec<String>, applied: &mut Vec<String>, flags: &mut EffectFlags)
    requires
        is_job_key(key@),
        job_fits(old(state)@, key@, views(parts@)),
    ensures
        changed_to(*old(state), *final(state), job_step(old(state)@, *old(flags), key@, views(parts@)).0),
        *final(flags) == job_step(old(state)@, *old(flags), key@, views(parts@)).1,
        views(final(applied)@) == views(old(applied)@) + job_step(old(state)@, *old(flags), key@, views(parts@)).2,
{
    let ghost log0 = views(applied@);
    let value = part(parts, 1);
    if str_eq(key, "job") {
        if let Some(v) = value {
            if let Some(st) = parse_job_status(trim(v)) {
                state.job_status = st;
                applied.push(concat_str("job -> ", job_status_label(st)));
                flags.career = true;
                flags.job_status = true;
                flags.routine = true;
            }
        }
        assert(views(applied@) =~= log0 + job_step(old(state)@, *old(flags), key@, views(parts@)).2);
    } else if str_eq(key, "job_role") {
        if let Some(v) = value {
            if let Some(r) = parse_job_role(trim(v)) {
                state.job.role = r;
                applied.push(concat_str("job role -> ", job_role_label(r)));
                flags.career = true;
            }
        }
        assert(views(applied@) =~= log0 + job_step(old(state)@, *old(flags), key@, views(parts@)).2);
    } else if str_eq(key, "job_level") {
        apply_delta_at(&mut state.job.level, value, applied, "job_level");
        state.job.level = if state.job.level < 0 {
            0
        } else if state.job.level > 10 {
            10
        } else {
            state.job.level
        };
        flags.career = true;
    } else {
        apply_delta_at(&mut state.career_xp, value, applied, "career_xp");
        state.career_xp = clamp_progress(state.career_xp);
    }
}

pub open spec fn is_contact_key(k: Seq<char>) -> bool {
    k == "contact"@ || k == "contact_domain"@ || k == "relationship"@ || k == "relationship_level"@
        || k == "contact_influence"@ || k == "relation_type"@ || k == "contact_relation"@
}

/// The level, domain and relation a `contact` effect's extra pieces name: each
/// non-empty piece sets the first of the three still unset that it names.
pub open spec fn option_step(
    o: (Option<RelationshipLevel>, Option<ContactDomain>, Option<RelationType>),
    raw: Seq<char>,
) -> (Option<RelationshipLevel>, Option<ContactDomain>, Option<RelationType>) {
    let v = trim_chars(raw);
    if v.len() == 0 {
        o
    } else if o.0 is None && relationship_level_named(v) is Some {
        (relationship_level_named(v), o.1, o.2)
    } else if o.1 is None && contact_domain_named(v) is Some {
        (o.0, contact_domain_named(v), o.2)
    } else if o.2 is None && relation_type_named(v) is Some {
        (o.0, o.1, relation_type_named(v))
    } else {
        o
    }
}

pub open spec fn contact_options(vals: Seq<Seq<char>>) -> (Option<RelationshipLevel>, Option<ContactDomain>, Option<RelationType>)
    decreases vals.len(),
{
    if vals.len() == 0 {
        (None, None, None)
    } else {
        option_step(contact_options(vals.drop_last()), vals.last())
    }
}

/// The extra pieces of a `contact` effect: the third to the fifth.
pub open spec fn contact_extras(ps: Seq<Seq<char>>) -> Seq<Seq<char>> {
    if ps.len() <= 2 {
        Seq::empty()
    } else {
        ps.subrange(2, if ps.len() < 5 { ps.len() as int } else { 5 })
    }
}

/// Contact effects: meeting someone, or changing the domain, bond, level, influence
/// or relation of a contact, who is met first if unknown.
pub open spec fn contact_step(v: CivView, f: EffectFlags, k: Seq<char>, ps: Seq<Seq<char>>) -> (CivView, EffectFlags, Seq<Seq<char>>) {
    let day = v.last_day;
    let role = v.job.role;
    let cs = v.contacts;
    if k == "contact"@ {
        match arg(ps, 1) {
            Some(x) => {
                let name = trim_chars(x);
                if name.len() > 0 {
                    let (lv, dm, rt) = contact_options(contact_extras(ps));
                    let level = match lv {
                        Some(l) => l,
                        None => RelationshipLevel::Acquaintance,
                    };
                    (CivView { contacts: upserted(cs, name, level, dm, rt, day, role), ..v }, f, upsert_log(cs, name, level, dm, rt))
                } else {
                    (v, f, Seq::empty())
                }
            },
            None => (v, f, Seq::empty()),
        }
    } else if ps.len() < 3 {
        (v, f, Seq::empty())
    } else {
        let name = trim_chars(ps[1]);
        let raw = trim_chars(ps[2]);
        if k == "contact_domain"@ {
            match contact_domain_named(raw) {
                Some(d) => (CivView { contacts: domain_set(cs, name, d, day, role), ..v }, f, domain_set_log(cs, name, d)),
                None => (v, f, Seq::empty()),
            }
        } else if k == "relationship"@ {
            match parsed_i32(raw) {
                Some(delta) => (
                    CivView { contacts: relationship_adjusted(cs, name, delta, day, role), ..v },
                    f,
                    with_contact_log(cs, name).push("relationship "@ + name + " "@ + signed_decimal(delta as int)),
                ),
                None => (v, f, Seq::empty()),
            }
        } else if k == "relationship_level"@ {
            match relationship_level_named(raw) {
                Some(l) => (CivView { contacts: level_set(cs, name, l, day, role), ..v }, f, level_set_log(cs, name, l)),
                None => (v, f, Seq::empty()),
            }
        } else if k == "contact_influence"@ {
            match parsed_i32(raw) {
                Some(delta) => (
                    CivView { contacts: influence_adjusted(cs, name, delta, day, role), ..v },
                    f,
                    with_contact_log(cs, name).push("contact influence "@ + name + " "@ + signed_decimal(delta as int)),
                ),
                None => (v, f, Seq::empty()),
            }
        } else {
            match relation_type_named(raw) {
                Some(r) => (CivView { contacts: relation_set(cs, name, r, day, role), ..v }, f, relation_set_log(cs, name, r)),
                None => (v, f, Seq::empty()),
            }
        }
    }
}

pub open spec fn contact_fits(v: CivView, k: Seq<char>, ps: Seq<Seq<char>>) -> bool {
    ps.len() >= 3 ==> {
        let name = trim_chars(ps[1]);
        let raw = trim_chars(ps[2]);
        &&& (k == "relationship"@ && parsed_i32(raw) is Some) ==> i32::MIN <= raw_bond_after(
            v.contacts,
            name,
            parsed_i32(raw)->0,
            v.last_day,
            v.job.role,
        ) <= i32::MAX
        &&& (k == "contact_influence"@ && parsed_i32(raw) is Some) ==> i32::MIN <= raw_influence_after(
            v.contacts,
            name,
            parsed_i32(raw)->0,
            v.last_day,
            v.job.role,
        ) <= i32::MAX
    }
}

fn contact_effect(state: &mut CivilianState, key: &str, parts: &Vec<String>, applied: &mut Vec<String>, flags: &mut EffectFlags)
    requires
        is_contact_key(key@),
        contact_fits(old(state)@, key@, views(parts@)),
    ensures
        changed_to(*old(state), *final(state), contact_step(old(state)@, *old(flags), key@, views(parts@)).0),
        *final(flags) == contact_step(old(state)@, *old(flags), key@, views(parts@)).1,
        views(final(applied)@) == views(old(applied)@) + contact_step(old(state)@, *old(flags), key@, views(parts@)).2,
{
    let ghost ps = views(parts@);
    let ghost log0 = views(applied@);
    if str_eq(key, "contact") {
        if parts.len() > 1 {
            let name = trim(parts[1].as_str());
            assert(ps[1] == parts@[1]@);
            if name.unicode_len() > 0 {
                let mut level: Option<RelationshipLevel> = None;
                let mut domain: Option<ContactDomain> = None;
                let mut relation_type: Option<RelationType> = None;
                let end: usize = if parts.len() < 5 { parts.len() } else { 5 };
                let ghost extras = contact_extras(ps);
                let mut j: usize = 2;
                assert(extras.take(0) =~= Seq::<Seq<char>>::empty());
                while j < end
                    invariant
                        ps == views(parts@),
                        2 <= j <= end,
                        end == if parts@.len() < 5 { parts@.len() } else { 5 },
                        parts@.len() > 2 || j == end,
                        extras == contact_extras(ps),
                        extras.len() == if ps.len() <= 2 { 0 } else { end - 2 },
                        (level, domain, relation_type) == contact_options(extras.take(j - 2)),
                    decreases end - j,
                {
                    assert(extras[j - 2] == ps[j as int]);
                    assert(ps[j as int] == parts@[j as int]@);
                    assert(extras.take(j - 1).drop_last() =~= extras.take(j - 2));
                    let value = trim(parts[j].as_str());
                    if value.unicode_len() > 0 {
                        let mut done = false;
                        if level.is_none() {
                            if let Some(parsed) = parse_relationship_level(value) {
                                level = Some(parsed);
                                done = true;
                            }
                        }
                        if !done && domain.is_none() {
                            if let Some(parsed) = parse_contact_domain(value) {
                                domain = Some(parsed);
                                done = true;
                            }
                        }
                        if !done && relation_type.is_none() {
                            if let Some(parsed) = parse_relation_type(value) {
                                relation_type = Some(parsed);
                            }
                        }
                    }
                    j = j + 1;
                }
                assert(extras.take(extras.len() as int) =~= extras);
                let lv = match level {
                    Some(l) => l,
                    None => RelationshipLevel::Acquaintance,
                };
                state.upsert_contact(name, lv, domain, relation_type, applied);
            } else {
                assert(views(applied@) =~= log0 + Seq::<Seq<char>>::empty());
            }
        } else {
            assert(views(applied@) =~= log0 + Seq::<Seq<char>>::empty());
        }
    } else if parts.len() < 3 {
        assert(views(applied@) =~= log0 + Seq::<Seq<char>>::empty());
    } else {
        assert(ps[1] == parts@[1]@);
        assert(ps[2] == parts@[2]@);
        let name = trim(parts[1].as_str());
        let raw = trim(parts[2].as_str());
        if str_eq(key, "contact_domain") {
            match parse_contact_domain(raw) {
                Some(d) => state.set_contact_domain(name, d, applied),
                None => {
                    assert(views(applied@) =~= log0 + Seq::<Seq<char>>::empty());
                },
            }
        } else if str_eq(key, "relationship") {
            match parse_i32(raw) {
                Some(delta) => state.adjust_relationship(name, delta, applied),
                None => {
                    assert(views(applied@) =~= log0 + Seq::<Seq<char>>::empty());
                },
            }
        } else if str_eq(key, "relationship_level") {
            match parse_relationship_level(raw) {
                Some(l) => state.set_relationship_level(name, l, applied),
                None => {
                    assert(views(applied@) =~= log0 + Seq::<Seq<char>>::empty());
                },
            }
        } else if str_eq(key, "contact_influence") {
            match parse_i32(raw) {
                Some(delta) => state.adjust_contact_influence(name, delta, applied),
                None => {
                    assert(views(applied@) =~= log0 + Seq::<Seq<char>>::empty());
                },
            }
        } else {
            match parse_relation_type(raw) {
                Some(r) => state.set_relation_type(name, r, applied),
                None => {
                    assert(views(applied@) =~= log0 + Seq::<Seq<char>>::empty());
                },
            }
        }
    }
}

/// What one effect does, by the key before its first colon; keys of no category
/// (among them those of the economy's own ledger) change nothing here.
pub open spec fn effect_step(v: CivView, f: EffectFlags, effect: Seq<char>) -> (CivView, EffectFlags, Seq<Seq<char>>) {
    let ps = split_pieces(effect, ':');
    let k = trim_chars(ps[0]);
    if is_finance_key(k) {
        finance_step(v, f, k, ps)
    } else if is_housing_key(k) {
        housing_step(v, f, k, ps)
    } else if is_life_key(k) {
        life_step(v, f, k, ps)
    } else if is_metric_key(k) {
        metric_step(v, f, k, ps)
    } else if is_schooling_key(k) {
        schooling_step(v, f, k, ps)
    } else if is_job_key(k) {
        job_step(v, f, k, ps)
    } else if is_contact_key(k) {
        contact_step(v, f, k, ps)
    } else {
        (v, f, Seq::empty())
    }
}

/// The effect's arithmetic stays within `i32`, and there is room for one more
/// contact.
pub open spec fn step_fits(v: CivView, effect: Seq<char>) -> bool {
    let ps = split_pieces(effect, ':');
    let k = trim_chars(ps[0]);
    &&& v.contacts.len() < 10_000_000
    &&& is_finance_key(k) ==> finance_fits(v, k, ps)
    &&& is_housing_key(k) ==> housing_fits(v, k, ps)
    &&& is_life_key(k) ==> life_fits(v, k, ps)
    &&& is_metric_key(k) ==> metric_fits(v, k, ps)
    &&& is_schooling_key(k) ==> schooling_fits(v, k, ps)
    &&& is_job_key(k) ==> job_fits(v, k, ps)
    &&& is_contact_key(k) ==> contact_fits(v, k, ps)
}

/// The effects applied one after another, with what they call for and their
/// messages.
pub open spec fn run_effects(v: CivView, effects: Seq<Seq<char>>) -> (CivView, EffectFlags, Seq<Seq<char>>)
    decreases effects.len(),
{
    if effects.len() == 0 {
        (v, no_flags(), Seq::empty())
    } else {
        let (v1, f1, l1) = run_effects(v, effects.drop_last());
        let (v2, f2, l2) = effect_step(v1, f1, effects.last());
        (v2, f2, l1 + l2)
    }
}

/// Every effect fits where it applies.
pub open spec fn effects_fit(v: CivView, effects: Seq<Seq<char>>) -> bool
    decreases effects.len(),
{
    effects.len() == 0 || (effects_fit(v, effects.drop_last()) && step_fits(
        run_effects(v, effects.drop_last()).0,
        effects.last(),
    ))
}

/// The pay after the effects: it follows a changed career unless a wage was set; no
/// job pays nothing, and a career change without a status change puts the
/// unemployed back to work. Also whether that happened.
pub open spec fn finish_pay(v: CivView, f: EffectFlags) -> (CivView, bool) {
    let v1 = if f.career && !f.wage_override { compensation_synced(v) } else { v };
    let v2 = if v1.job_status == JobStatus::Unemployed {
        CivView { finances: CivilianFinances { wage: 0, ..v1.finances }, ..v1 }
    } else {
        v1
    };
    let rehired = f.career && !f.job_status && v2.job_status == JobStatus::Unemployed;
    let v3 = if rehired { compensation_synced(CivView { job_status: JobStatus::Employed, ..v2 }) } else { v2 };
    (v3, rehired)
}

/// The home, life, schooling and routine after the effects: the rent follows the
/// home; a changed life gets the life stage of its age, fitting schooling and a
/// mutation check; changed schooling is checked for completion; the routine is
/// rebuilt when called for.
pub open spec fn finish_life(v3: CivView, f: EffectFlags, rehired: bool) -> CivView {
    let v4 = if f.housing { CivView { finances: CivilianFinances { rent: v3.housing.rent, ..v3.finances }, ..v3 } } else { v3 };
    let v5 = if f.life {
        let life = LifeState { life_stage: stage_for_age(v4.life.age_years), ..v4.life };
        CivView { life: mutation_updated(life), education: education_aligned(v4.education, life.life_stage), ..v4 }
    } else {
        v4
    };
    let v6 = if f.education { CivView { education: education_advanced(v5.education), ..v5 } } else { v5 };
    if f.routine || rehired || f.life || f.education {
        CivView { routine: routine_blocks(v6.job_status, v6.education, v6.life), ..v6 }
    } else {
        v6
    }
}

/// What follows the effects, first part: the pay, then home, life, schooling and
/// routine; a return to work is noted.
pub open spec fn finish_front(v: CivView, f: EffectFlags) -> (CivView, Seq<Seq<char>>) {
    let (v3, rehired) = finish_pay(v, f);
    let log: Seq<Seq<char>> = if rehired { seq!["job -> Employed"@] } else { Seq::empty() };
    (finish_life(v3, f, rehired), log)
}

/// What follows the effects, second part: a promotion check, then the social web,
/// tier and network rewards are brought up to date.
pub open spec fn finish_back(v7: CivView) -> CivView {
    let v8 = career_progressed(v7, v7.last_day);
    let v9 = CivView { social_web: web_for(v8), ..v8 };
    let v10 = CivView { civilian_tier: tier_for(v9), ..v9 };
    CivView { network_rewards: network_rewards_for(v10.social_web, v10.civilian_tier), ..v10 }
}

/// What follows the effects: both parts, in order.
pub open spec fn finish_effects(v: CivView, f: EffectFlags) -> (CivView, Seq<Seq<char>>) {
    (finish_back(finish_front(v, f).0), finish_front(v, f).1)
}

fn is_finance(k: &str) -> (b: bool)
    ensures
        b == is_finance_key(k@),
{
    str_eq(k, "cash") || str_eq(k, "debt") || str_eq(k, "rent_due_in") || str_eq(k, "wage")
}

fn is_housing(k: &str) -> (b: bool)
    ensures
        b == is_housing_key(k@),
{
    str_eq(k, "housing_rent") || str_eq(k, "housing_stability") || str_eq(k, "housing_safety") || str_eq(
        k,
        "housing_privacy",
    ) || str_eq(k, "housing_neighborhood") || str_eq(k, "relocation_cooldown")
}

fn is_life(k: &str) -> (b: bool)
    ensures
        b == is_life_key(k@),
{
    str_eq(k, "age") || str_eq(k, "age_years") || str_eq(k, "life_stage") || str_eq(k, "mutant_gene") || str_eq(
        k,
        "mutation_ready",
    )
}

fn is_schooling(k: &str) -> (b: bool)
    ensures
        b == is_schooling_key(k@),
{
    str_eq(k, "education_level") || str_eq(k, "education_credits") || str_eq(k, "education_enrolled")
}

fn is_job(k: &str) -> (b: bool)
    ensures
        b == is_job_key(k@),
{
    str_eq(k, "job") || str_eq(k, "job_role") || str_eq(k, "job_level") || str_eq(k, "career_xp")
}

fn is_contact(k: &str) -> (b: bool)
    ensures
        b == is_contact_key(k@),
{
    str_eq(k, "contact") || str_eq(k, "contact_domain") || str_eq(k, "relationship") || str_eq(k, "relationship_level")
        || str_eq(k, "contact_influence") || str_eq(k, "relation_type") || str_eq(k, "contact_relation")
}

fn is_metric(k: &str) -> (b: bool)
    ensures
        b == is_metric_key(k@),
{
    str_eq(k, "health_stress")
        || str_eq(k, "health_sleep_debt")
        || str_eq(k, "health_fitness")
        || str_eq(k, "health_injuries")
        || str_eq(k, "support")
        || str_eq(k, "strain")
        || str_eq(k, "obligation")
        || str_eq(k, "career")
        || str_eq(k, "community")
        || str_eq(k, "media")
        || str_eq(k, "income_boost")
        || str_eq(k, "safehouse")
        || str_eq(k, "access")
        || str_eq(k, "intel")
        || str_eq(k, "favors")
        || str_eq(k, "job_satisfaction")
        || str_eq(k, "job_stability")
        || str_eq(k, "education_progress")
        || str_eq(k, "education_attendance")
        || str_eq(k, "education_dropout_risk")
}

fn apply_effect(state: &mut CivilianState, effect: &str, applied: &mut Vec<String>, flags: &mut EffectFlags)
    requires
        step_fits(old(state)@, effect@),
    ensures
        changed_to(*old(state), *final(state), effect_step(old(state)@, *old(flags), effect@).0),
        *final(flags) == effect_step(old(state)@, *old(flags), effect@).1,
        views(final(applied)@) == views(old(applied)@) + effect_step(old(state)@, *old(flags), effect@).2,
{
    let parts = split_char(effect, ':');
    let key = trim(parts[0].as_str());
    assert(views(parts@)[0] == parts@[0]@);
    if is_finance(key) {
        finance_effect(state, key, &parts, applied, flags);
    } else if is_housing(key) {
        housing_effect(state, key, &parts, applied, flags);
    } else if is_life(key) {
        life_effect(state, key, &parts, applied, flags);
    } else if is_metric(key) {
        metric_effect(state, key, &parts, applied, flags);
    } else if is_schooling(key) {
        schooling_effect(state, key, &parts, applied, flags);
    } else if is_job(key) {
        job_effect(state, key, &parts, applied, flags);
    } else if is_contact(key) {
        contact_effect(state, key, &parts, applied, flags);
    } else {
        assert(views(applied@) =~= views(applied@) + Seq::<Seq<char>>::empty());
    }
}

/// The contacts keep their bonds and influence within `0..=100`.
pub open spec fn contacts_in_range(cs: Seq<ContactView>) -> bool {
    forall|i: int| #![trigger cs[i]] 0 <= i < cs.len() ==> in_metric(cs[i].bond) && in_metric(cs[i].influence)
}

proof fn lemma_in_range_at(cs: Seq<ContactView>, i: int)
    requires
        contacts_in_range(cs),
        0 <= i < cs.len(),
    ensures
        in_metric(cs[i].bond),
        in_metric(cs[i].influence),
{
}

proof fn lemma_upserted_in_range(
    cs: Seq<ContactView>,
    name: Seq<char>,
    level: RelationshipLevel,
    d: Option<ContactDomain>,
    r: Option<RelationType>,
    day: u32,
    role: JobRole,
)
    requires
        contacts_in_range(cs),
    ensures
        contacts_in_range(upserted(cs, name, level, d, r, day, role)),
        upserted(cs, name, level, d, r, day, role).len() <= cs.len() + 1,
{
    crate::simulation::civilian::contacts::lemma_find_contact(cs, name);
    let u = upserted(cs, name, level, d, r, day, role);
    assert forall|i: int| 0 <= i < u.len() implies in_metric(#[trigger] u[i].bond) && in_metric(u[i].influence) by {
        if i < cs.len() {
            lemma_in_range_at(cs, i);
        }
    }
}

proof fn lemma_with_contact_in_range(cs: Seq<ContactView>, name: Seq<char>, day: u32, role: JobRole)
    requires
        contacts_in_range(cs),
    ensures
        contacts_in_range(crate::simulation::civilian::contacts::with_contact(cs, name, day, role)),
        crate::simulation::civilian::contacts::with_contact(cs, name, day, role).len() <= cs.len() + 1,
        crate::simulation::civilian::contacts::contact_slot(cs, name) < crate::simulation::civilian::contacts::with_contact(
            cs,
            name,
            day,
            role,
        ).len(),
{
    crate::simulation::civilian::contacts::lemma_find_contact(cs, name);
    lemma_upserted_in_range(cs, name, RelationshipLevel::Acquaintance, None, None, day, role);
}

proof fn lemma_adjusted_in_range(cs: Seq<ContactView>, name: Seq<char>, delta: i32, day: u32, role: JobRole)
    requires
        contacts_in_range(cs),
    ensures
        contacts_in_range(relationship_adjusted(cs, name, delta, day, role)),
        relationship_adjusted(cs, name, delta, day, role).len() <= cs.len() + 1,
        contacts_in_range(influence_adjusted(cs, name, delta, day, role)),
        influence_adjusted(cs, name, delta, day, role).len() <= cs.len() + 1,
{
    lemma_with_contact_in_range(cs, name, day, role);
    crate::simulation::civilian::contacts::lemma_find_contact(cs, name);
    let c1 = crate::simulation::civilian::contacts::with_contact(cs, name, day, role);
    let slot = crate::simulation::civilian::contacts::contact_slot(cs, name);
    assert(contacts_in_range(c1));
    let u = relationship_adjusted(cs, name, delta, day, role);
    assert(u.len() == c1.len());
    assert forall|i: int| 0 <= i < u.len() implies in_metric(#[trigger] u[i].bond) && in_metric(u[i].influence) by {
        lemma_in_range_at(c1, i);
    }
    let w = influence_adjusted(cs, name, delta, day, role);
    assert(w.len() == c1.len());
    assert forall|i: int| 0 <= i < w.len() implies in_metric(#[trigger] w[i].bond) && in_metric(w[i].influence) by {
        lemma_in_range_at(c1, i);
    }
}

proof fn lemma_setters_in_range(
    cs: Seq<ContactView>,
    name: Seq<char>,
    level: RelationshipLevel,
    d: ContactDomain,
    r: RelationType,
    day: u32,
    role: JobRole,
)
    requires
        contacts_in_range(cs),
    ensures
        contacts_in_range(level_set(cs, name, level, day, role)),
        level_set(cs, name, level, day, role).len() <= cs.len() + 1,
        contacts_in_range(domain_set(cs, name, d, day, role)),
        domain_set(cs, name, d, day, role).len() <= cs.len() + 1,
        contacts_in_range(relation_set(cs, name, r, day, role)),
        relation_set(cs, name, r, day, role).len() <= cs.len() + 1,
{
    crate::simulation::civilian::contacts::lemma_find_contact(cs, name);
    assert(contacts_in_range(cs));
    lemma_upserted_in_range(cs, name, level, None, None, day, role);
    lemma_upserted_in_range(cs, name, RelationshipLevel::Acquaintance, Some(d), None, day, role);
    lemma_upserted_in_range(cs, name, RelationshipLevel::Acquaintance, None, Some(r), day, role);
    let u = level_set(cs, name, level, day, role);
    assert forall|i: int| 0 <= i < u.len() implies in_metric(#[trigger] u[i].bond) && in_metric(u[i].influence) by {
        if i < cs.len() {
            lemma_in_range_at(cs, i);
        }
    }
    let w = domain_set(cs, name, d, day, role);
    assert forall|i: int| 0 <= i < w.len() implies in_metric(#[trigger] w[i].bond) && in_metric(w[i].influence) by {
        if i < cs.len() {
            lemma_in_range_at(cs, i);
        }
    }
    let x = relation_set(cs, name, r, day, role);
    assert forall|i: int| 0 <= i < x.len() implies in_metric(#[trigger] x[i].bond) && in_metric(x[i].influence) by {
        if i < cs.len() {
            lemma_in_range_at(cs, i);
        }
    }
}

proof fn lemma_contact_step_wf(v: CivView, f: EffectFlags, k: Seq<char>, ps: Seq<Seq<char>>)
    requires
        civ_wf(v),
        v.contacts.len() < 10_000_000,
    ensures
        civ_wf(contact_step(v, f, k, ps).0),
{
    let cs = v.contacts;
    let day = v.last_day;
    let role = v.job.role;
    assert(contacts_in_range(cs));
    if k == "contact"@ {
        if ps.len() > 1 {
            let name = trim_chars(ps[1]);
            let (lv, dm, rt) = contact_options(contact_extras(ps));
            let level = match lv {
                Some(l) => l,
                None => RelationshipLevel::Acquaintance,
            };
            lemma_upserted_in_range(cs, name, level, dm, rt, day, role);
        }
    } else if ps.len() >= 3 {
        let name = trim_chars(ps[1]);
        let raw = trim_chars(ps[2]);
        let level = match relationship_level_named(raw) {
            Some(l) => l,
            None => RelationshipLevel::Acquaintance,
        };
        let d = match contact_domain_named(raw) {
            Some(d) => d,
            None => ContactDomain::Community,
        };
        let r = match relation_type_named(raw) {
            Some(r) => r,
            None => RelationType::Peer,
        };
        lemma_setters_in_range(cs, name, level, d, r, day, role);
        if parsed_i32(raw) is Some {
            lemma_adjusted_in_range(cs, name, parsed_i32(raw)->0, day, role);
        }
        if k == "contact_domain"@ {
        } else if k == "relationship"@ {
        } else if k == "relationship_level"@ {
        } else if k == "contact_influence"@ {
        } else {
        }
    }
}

/// One effect keeps the civilian rules' ranges.
#[verifier::spinoff_prover]
#[verifier::rlimit(40)]
pub proof fn lemma_step_wf(v: CivView, f: EffectFlags, effect: Seq<char>)
    requires
        civ_wf(v),
        step_fits(v, effect),
    ensures
        civ_wf(effect_step(v, f, effect).0),
{
    let ps = split_pieces(effect, ':');
    let k = trim_chars(ps[0]);
    if is_finance_key(k) {
    } else if is_housing_key(k) {
    } else if is_life_key(k) {
    } else if is_metric_key(k) {
    } else if is_schooling_key(k) {
    } else if is_job_key(k) {
    } else if is_contact_key(k) {
        lemma_contact_step_wf(v, f, k, ps);
    } else {
    }
}

/// The effects keep the civilian rules' ranges.
pub proof fn lemma_run_wf(v: CivView, effects: Seq<Seq<char>>)
    requires
        civ_wf(v),
        effects_fit(v, effects),
    ensures
        civ_wf(run_effects(v, effects).0),
    decreases effects.len(),
{
    if effects.len() > 0 {
        lemma_run_wf(v, effects.drop_last());
        let (v1, f1, l1) = run_effects(v, effects.drop_last());
        lemma_step_wf(v1, f1, effects.last());
    }
}

/// Rent and the relocation cooldown are not negative.
pub open spec fn housing_nonnegative(v: CivView) -> bool {
    v.housing.rent >= 0 && v.housing.relocation_cooldown >= 0
}

/// One effect keeps rent and the relocation cooldown non-negative.
#[verifier::spinoff_prover]
#[verifier::rlimit(40)]
pub proof fn lemma_step_housing(v: CivView, f: EffectFlags, effect: Seq<char>)
    requires
        housing_nonnegative(v),
        step_fits(v, effect),
    ensures
        housing_nonnegative(effect_step(v, f, effect).0),
{
    let ps = split_pieces(effect, ':');
    let k = trim_chars(ps[0]);
    if is_finance_key(k) {
    } else if is_housing_key(k) {
    } else if is_life_key(k) {
    } else if is_metric_key(k) {
    } else if is_schooling_key(k) {
    } else if is_job_key(k) {
    } else if is_contact_key(k) {
    } else {
    }
}

/// Effects, and what follows them, keep rent and the relocation cooldown non-negative.
pub proof fn law_effects_keep_housing(v: CivView, effects: Seq<Seq<char>>)
    requires
        housing_nonnegative(v),
        effects_fit(v, effects),
    ensures
        housing_nonnegative(run_effects(v, effects).0),
        housing_nonnegative(finish_effects(run_effects(v, effects).0, run_effects(v, effects).1).0),
    decreases effects.len(),
{
    if effects.len() > 0 {
        law_effects_keep_housing(v, effects.drop_last());
        let (v1, f1, l1) = run_effects(v, effects.drop_last());
        lemma_step_housing(v1, f1, effects.last());
    }
}

/// One effect keeps the flags already raised, and changes the job status only when it
/// raises the job status flag.
#[verifier::spinoff_prover]
#[verifier::rlimit(40)]
proof fn lemma_step_status(v: CivView, f: EffectFlags, effect: Seq<char>)
    ensures
        f.job_status ==> effect_step(v, f, effect).1.job_status,
        f.career ==> effect_step(v, f, effect).1.career,
        !effect_step(v, f, effect).1.job_status ==> effect_step(v, f, effect).0.job_status == v.job_status,
{
    let ps = split_pieces(effect, ':');
    let k = trim_chars(ps[0]);
    if is_finance_key(k) {
    } else if is_housing_key(k) {
    } else if is_life_key(k) {
    } else if is_metric_key(k) {
    } else if is_schooling_key(k) {
    } else if is_job_key(k) {
    } else if is_contact_key(k) {
    } else {
    }
}

/// Effects change the job status only through a job status effect.
proof fn lemma_run_status(v: CivView, effects: Seq<Seq<char>>)
    ensures
        !run_effects(v, effects).1.job_status ==> run_effects(v, effects).0.job_status == v.job_status,
    decreases effects.len(),
{
    if effects.len() > 0 {
        lemma_run_status(v, effects.drop_last());
        let (v1, f1, l1) = run_effects(v, effects.drop_last());
        lemma_step_status(v1, f1, effects.last());
    }
}

/// An effect that sets the job status: `job:` and a status it names.
pub open spec fn sets_job_status(effect: Seq<char>) -> bool {
    let ps = split_pieces(effect, ':');
    &&& trim_chars(ps[0]) == "job"@
    &&& arg(ps, 1) matches Some(x) && job_status_named(trim_chars(x)) is Some
}

/// An effect that changes the career without setting the job status: `job_level:`, or
/// `job_role:` and a role it names.
pub open spec fn changes_career(effect: Seq<char>) -> bool {
    let ps = split_pieces(effect, ':');
    let k = trim_chars(ps[0]);
    ||| k == "job_level"@
    ||| k == "job_role"@ && (arg(ps, 1) matches Some(x) && job_role_named(trim_chars(x)) is Some)
}

/// The job keys are handled by the job step alone.
proof fn lemma_job_keys_dispatch(k: Seq<char>)
    requires
        k == "job"@ || k == "job_role"@ || k == "job_level"@,
    ensures
        !is_finance_key(k) && !is_housing_key(k) && !is_life_key(k) && !is_metric_key(k) && !is_schooling_key(k),
        is_job_key(k),
{
    reveal_strlit("cash");
    reveal_strlit("debt");
    reveal_strlit("rent_due_in");
    reveal_strlit("wage");
    reveal_strlit("housing_rent");
    reveal_strlit("housing_stability");
    reveal_strlit("housing_safety");
    reveal_strlit("housing_privacy");
    reveal_strlit("housing_neighborhood");
    reveal_strlit("relocation_cooldown");
    reveal_strlit("age");
    reveal_strlit("age_years");
    reveal_strlit("life_stage");
    reveal_strlit("mutant_gene");
    reveal_strlit("mutation_ready");
    reveal_strlit("health_stress");
    reveal_strlit("health_sleep_debt");
    reveal_strlit("health_fitness");
    reveal_strlit("health_injuries");
    reveal_strlit("support");
    reveal_strlit("strain");
    reveal_strlit("obligation");
    reveal_strlit("career");
    reveal_strlit("community");
    reveal_strlit("media");
    reveal_strlit("income_boost");
    reveal_strlit("safehouse");
    reveal_strlit("access");
    reveal_strlit("intel");
    reveal_strlit("favors");
    reveal_strlit("job_satisfaction");
    reveal_strlit("job_stability");
    reveal_strlit("education_progress");
    reveal_strlit("education_attendance");
    reveal_strlit("education_dropout_risk");
    reveal_strlit("education_level");
    reveal_strlit("education_credits");
    reveal_strlit("education_enrolled");
    reveal_strlit("job");
    reveal_strlit("job_role");
    reveal_strlit("job_level");
    reveal_strlit("career_xp");
    assert(k.len() == 3 || k.len() == 8 || k.len() == 9);
    assert(k[0] == 'j' && k[1] == 'o' && k[2] == 'b');
}

/// One effect raises the job status flag exactly when it sets the job status, and the
/// career flag exactly when it sets the job status or changes the career.
#[verifier::spinoff_prover]
#[verifier::rlimit(40)]
proof fn lemma_step_flags(v: CivView, f: EffectFlags, effect: Seq<char>)
    ensures
        effect_step(v, f, effect).1.job_status == (f.job_status || sets_job_status(effect)),
        effect_step(v, f, effect).1.career == (f.career || sets_job_status(effect) || changes_career(effect)),
{
    let ps = split_pieces(effect, ':');
    let k = trim_chars(ps[0]);
    if k == "job"@ || k == "job_role"@ || k == "job_level"@ {
        lemma_job_keys_dispatch(k);
        reveal_strlit("job");
        reveal_strlit("job_role");
        reveal_strlit("job_level");
    } else if is_finance_key(k) {
    } else if is_housing_key(k) {
    } else if is_life_key(k) {
    } else if is_metric_key(k) {
    } else if is_schooling_key(k) {
    } else if is_job_key(k) {
    } else if is_contact_key(k) {
    } else {
    }
}

/// After effects, the job status flag is raised exactly when one of them sets the job
/// status, and the career flag exactly when one sets the job status or changes the career.
proof fn lemma_run_flags(v: CivView, effects: Seq<Seq<char>>)
    ensures
        run_effects(v, effects).1.job_status == exists|i: int| 0 <= i < effects.len() && sets_job_status(#[trigger] effects[i]),
        run_effects(v, effects).1.career == exists|i: int| 0 <= i < effects.len() && (sets_job_status(#[trigger] effects[i])
            || changes_career(effects[i])),
    decreases effects.len(),
{
    if effects.len() > 0 {
        let pre = effects.drop_last();
        lemma_run_flags(v, pre);
        let (v1, f1, l1) = run_effects(v, pre);
        lemma_step_flags(v1, f1, effects.last());
        let n = effects.len() - 1;
        assert forall|i: int| 0 <= i < pre.len() implies #[trigger] pre[i] == effects[i] by {}
        if exists|i: int| 0 <= i < effects.len() && sets_job_status(#[trigger] effects[i]) {
            let i = choose|i: int| 0 <= i < effects.len() && sets_job_status(#[trigger] effects[i]);
            if i < n {
                assert(sets_job_status(pre[i]));
            }
        }
        if exists|i: int| 0 <= i < effects.len() && (sets_job_status(#[trigger] effects[i]) || changes_career(effects[i])) {
            let i = choose|i: int| 0 <= i < effects.len() && (sets_job_status(#[trigger] effects[i]) || changes_career(effects[i]));
            if i < n {
                assert(sets_job_status(pre[i]) || changes_career(pre[i]));
            }
        }
    } else {
    }
}

/// An unemployed civilian whose career the effects change, with no effect among them that
/// sets the job status, is back at work afterwards, and the log says so.
pub proof fn law_career_change_rehires(v: CivView, effects: Seq<Seq<char>>)
    requires
        v.job_status == JobStatus::Unemployed,
        exists|i: int| 0 <= i < effects.len() && changes_career(#[trigger] effects[i]),
        forall|i: int| 0 <= i < effects.len() ==> !sets_job_status(#[trigger] effects[i]),
    ensures
        ({
            let (v1, f1, log1) = run_effects(v, effects);
            let (v2, log2) = finish_effects(v1, f1);
            &&& v2.job_status == JobStatus::Employed
            &&& (log1 + log2).contains("job -> Employed"@)
        }),
{
    lemma_run_flags(v, effects);
    lemma_run_status(v, effects);
    let (v1, f1, log1) = run_effects(v, effects);
    let (v2, log2) = finish_effects(v1, f1);
    let i = choose|i: int| 0 <= i < effects.len() && changes_career(#[trigger] effects[i]);
    assert(sets_job_status(effects[i]) || changes_career(effects[i]));
    assert((log1 + log2)[log1.len() as int] == "job -> Employed"@);
}

/// After the effects an unemployed civilian earns no wage; and an unemployed civilian
/// whose career the effects change, with no job status effect among them, is back at work,
/// which the log notes.
pub proof fn law_effects_pay(v: CivView, effects: Seq<Seq<char>>)
    ensures
        ({
            let (v1, f1, log1) = run_effects(v, effects);
            let (v2, log2) = finish_effects(v1, f1);
            &&& v2.job_status == JobStatus::Unemployed ==> v2.finances.wage == 0
            &&& (v.job_status == JobStatus::Unemployed && f1.career && !f1.job_status) ==> v2.job_status
                == JobStatus::Employed && log2 == seq!["job -> Employed"@]
        }),
{
    lemma_run_status(v, effects);
}

/// The web scores lie within `0..=100`.
proof fn lemma_web_in_range(v: CivView)
    ensures
        crate::simulation::civilian::life::web_in_range(web_for(v)),
{
}

fn finish_pay_effects(state: &mut CivilianState, flags: EffectFlags, applied: &mut Vec<String>) -> (rehired: bool)
    requires
        civ_wf(old(state)@),
    ensures
        changed_to(*old(state), *final(state), finish_pay(old(state)@, flags).0),
        rehired == finish_pay(old(state)@, flags).1,
        views(final(applied)@) == views(old(applied)@) + (if rehired { seq!["job -> Employed"@] } else { Seq::<Seq<char>>::empty() }),
        civ_wf(final(state)@),
{
    let ghost log0 = views(applied@);
    if flags.career && !flags.wage_override {
        proof {
            lemma_wf_compensation(state@);
        }
        sync_career_compensation(state);
    }
    if state.job_status == JobStatus::Unemployed {
        state.finances.wage = 0;
    }
    if flags.career && !flags.job_status && state.job_status == JobStatus::Unemployed {
        state.job_status = JobStatus::Employed;
        applied.push(copy_str("job -> Employed"));
        proof {
            lemma_wf_compensation(state@);
        }
        sync_career_compensation(state);
        assert(views(applied@) =~= log0 + seq!["job -> Employed"@]);
        return true;
    }
    assert(views(applied@) =~= log0 + Seq::<Seq<char>>::empty());
    false
}

fn finish_life_effects(state: &mut CivilianState, flags: EffectFlags, rehired: bool)
    requires
        civ_wf(old(state)@),
    ensures
        changed_to(*old(state), *final(state), finish_life(old(state)@, flags, rehired)),
        civ_wf(final(state)@),
{
    let mut routine = flags.routine || rehired;
    if flags.housing {
        sync_housing_rent(state);
    }
    if flags.life {
        state.life.life_stage = life_stage_for_age(state.life.age_years);
        align_education_with_life_stage(state);
        update_mutation_status(state);
        routine = true;
    }
    if flags.education {
        advance_education_if_ready(state);
        routine = true;
    }
    if routine {
        update_routine_schedule(state);
    }
}

fn finish_front_effects(state: &mut CivilianState, flags: EffectFlags, applied: &mut Vec<String>)
    requires
        civ_wf(old(state)@),
    ensures
        changed_to(*old(state), *final(state), finish_front(old(state)@, flags).0),
        views(final(applied)@) == views(old(applied)@) + finish_front(old(state)@, flags).1,
        civ_wf(final(state)@),
{
    let rehired = finish_pay_effects(state, flags, applied);
    finish_life_effects(state, flags, rehired);
}

fn finish_back_effects(state: &mut CivilianState)
    requires
        civ_wf(old(state)@),
    ensures
        changed_to(*old(state), *final(state), finish_back(old(state)@)),
        civ_wf(final(state)@),
{
    let day = state.last_day;
    apply_career_progression(state, day);
    rebuild_social_web(state);
    proof {
        lemma_web_in_range(state@);
    }
    update_civilian_tier(state);
    update_network_rewards(state);
}

fn finish_civilian_effects(state: &mut CivilianState, flags: EffectFlags, applied: &mut Vec<String>)
    requires
        civ_wf(old(state)@),
    ensures
        changed_to(*old(state), *final(state), finish_effects(old(state)@, flags).0),
        views(final(applied)@) == views(old(applied)@) + finish_effects(old(state)@, flags).1,
        civ_wf(final(state)@),
{
    finish_front_effects(state, flags, applied);
    finish_back_effects(state);
}

#[verifier::rlimit(50)]
/// Applies story effects to a civilian life, each written `key:value` (or
/// `key:name:value` for contacts), and returns the messages of what changed. The
/// state ends as `finish_effects` describes after `run_effects`.
pub fn apply_civilian_effects(state: &mut CivilianState, effects: &[String]) -> (applied: Vec<String>)
    requires
        civ_wf(old(state)@),
        effects_fit(old(state)@, views(effects@)),
    ensures
        ({
            let (v1, f1, log1) = run_effects(old(state)@, views(effects@));
            let (v2, log2) = finish_effects(v1, f1);
            &&& final(state)@ == v2
            &&& views(applied@) == log1 + log2
        }),
        same_records(*old(state), *final(state)),
        civ_wf(final(state)@),
        housing_nonnegative(old(state)@) ==> housing_nonnegative(final(state)@),
        final(state)@.job_status == JobStatus::Unemployed ==> final(state)@.finances.wage == 0,
        (old(state)@.job_status == JobStatus::Unemployed && (exists|i: int| 0 <= i < effects@.len() && changes_career(
            #[trigger] views(effects@)[i],
        )) && (forall|i: int| 0 <= i < effects@.len() ==> !sets_job_status(#[trigger] views(effects@)[i])))
            ==> final(state)@.job_status == JobStatus::Employed && views(applied@).contains("job -> Employed"@),
{
    let ghost v0 = state@;
    let ghost es = views(effects@);
    proof {
        if v0.job_status == JobStatus::Unemployed && (exists|i: int| 0 <= i < es.len() && changes_career(#[trigger] es[i]))
            && (forall|i: int| 0 <= i < es.len() ==> !sets_job_status(#[trigger] es[i])) {
            law_career_change_rehires(v0, es);
        }
        law_effects_pay(v0, es);
        if housing_nonnegative(v0) {
            law_effects_keep_housing(v0, es);
        }
    }
    let mut applied: Vec<String> = Vec::new();
    let mut flags = EffectFlags {
        career: false,
        job_status: false,
        wage_override: false,
        housing: false,
        life: false,
        education: false,
        routine: false,
    };
    let mut i: usize = 0;
    assert(es.take(0) =~= Seq::<Seq<char>>::empty());
    while i < effects.len()
        invariant
            i <= effects@.len(),
            es == views(effects@),
            civ_wf(v0),
            effects_fit(v0, es),
            state@ == run_effects(v0, es.take(i as int)).0,
            flags == run_effects(v0, es.take(i as int)).1,
            views(applied@) == run_effects(v0, es.take(i as int)).2,
            same_records(*old(state), *state),
            civ_wf(state@),
        decreases effects@.len() - i,
    {
        let ghost pre = es.take(i as int);
        let ghost next = es.take(i + 1);
        assert(next.drop_last() =~= pre);
        assert(next.last() == effects@[i as int]@);
        proof {
            lemma_effects_fit_prefix(v0, es, i + 1);
        }
        let ghost before = *state;
        apply_effect(state, effects[i].as_str(), &mut applied, &mut flags);
        proof {
            lemma_step_wf(before@, run_effects(v0, pre).1, es[i as int]);
        }
        i = i + 1;
    }
    assert(es.take(effects@.len() as int) =~= es);
    finish_civilian_effects(state, flags, &mut applied);
    applied
}

/// A prefix of effects that fit also fits.
proof fn lemma_effects_fit_prefix(v: CivView, es: Seq<Seq<char>>, n: int)
    requires
        effects_fit(v, es),
        0 <= n <= es.len(),
    ensures
        effects_fit(v, es.take(n)),
        n > 0 ==> step_fits(run_effects(v, es.take(n - 1)).0, es[n - 1]),
    decreases es.len() - n,
{
    if n < es.len() {
        assert(es.drop_last().take(n) =~= es.take(n));
        lemma_effects_fit_prefix(v, es.drop_last(), n);
        if n > 0 {
            assert(es.drop_last().take(n - 1) =~= es.take(n - 1));
        }
    } else {
        assert(es.take(n) =~= es);
        if n > 0 {
            assert(es.drop_last() =~= es.take(n - 1));
        }
    }
}

} // verus!
