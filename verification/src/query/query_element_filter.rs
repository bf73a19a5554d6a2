//! Filters over components and their change ticks, used for change
//! detection, and the functions that wrap a view in one.
use crate::query::filter::Filter;
use crate::query::query_filter::Not;
use crate::storage::{ChangeTicks, Ticks};
use vstd::prelude::*;

verus! {

/// Filter over a component of type `T` and its change ticks.
pub trait QueryElementFilter<T> {
    /// Whether `component`, with change ticks `ticks`, matches, given the
    /// world tick and the tick against which mutations are detected.
    spec fn spec_matches_component(
        &self,
        component: T,
        ticks: ChangeTicks,
        world_tick: Ticks,
        change_tick: Ticks,
    ) -> bool;

    /// Returns `true` if the component and ticks match the filter.
    fn matches(&self, component: &T, ticks: &ChangeTicks, world_tick: Ticks, change_tick: Ticks) -> (r:
        bool)
        ensures
            r == self.spec_matches_component(*component, *ticks, world_tick, change_tick),
    ;
}

/// Matches all components.
#[derive(Clone, Copy, Debug)]
pub struct Contains;

impl<T> QueryElementFilter<T> for Contains {
    open spec fn spec_matches_component(
        &self,
        component: T,
        ticks: ChangeTicks,
        world_tick: Ticks,
        change_tick: Ticks,
    ) -> bool {
        true
    }

    fn matches(&self, component: &T, ticks: &ChangeTicks, world_tick: Ticks, change_tick: Ticks) -> (r:
        bool) {
        true
    }
}

/// Matches the components added at the world tick.
#[derive(Clone, Copy, Debug)]
pub struct Added;

impl<T> QueryElementFilter<T> for Added {
    open spec fn spec_matches_component(
        &self,
        component: T,
        ticks: ChangeTicks,
        world_tick: Ticks,
        change_tick: Ticks,
    ) -> bool {
        ticks.tick_added == world_tick
    }

    fn matches(&self, component: &T, ticks: &ChangeTicks, world_tick: Ticks, change_tick: Ticks) -> (r:
        bool) {
        ticks.tick_added == world_tick
    }
}

/// Matches the components mutated after the change tick.
#[derive(Clone, Copy, Debug)]
pub struct Mutated;

impl<T> QueryElementFilter<T> for Mutated {
    open spec fn spec_matches_component(
        &self,
        component: T,
        ticks: ChangeTicks,
        world_tick: Ticks,
        change_tick: Ticks,
    ) -> bool {
        ticks.tick_mutated > change_tick
    }

    fn matches(&self, component: &T, ticks: &ChangeTicks, world_tick: Ticks, change_tick: Ticks) -> (r:
        bool) {
        ticks.tick_mutated > change_tick
    }
}

/// Matches the components added at the world tick or mutated after the
/// change tick.
#[derive(Clone, Copy, Debug)]
pub struct Changed;

impl<T> QueryElementFilter<T> for Changed {
    open spec fn spec_matches_component(
        &self,
        component: T,
        ticks: ChangeTicks,
        world_tick: Ticks,
        change_tick: Ticks,
    ) -> bool {
        ticks.tick_added == world_tick || ticks.tick_mutated > change_tick
    }

    fn matches(&self, component: &T, ticks: &ChangeTicks, world_tick: Ticks, change_tick: Ticks) -> (r:
        bool) {
        ticks.tick_added == world_tick || ticks.tick_mutated > change_tick
    }
}

impl<T, F: QueryElementFilter<T>> QueryElementFilter<T> for Not<F> {
    open spec fn spec_matches_component(
        &self,
        component: T,
        ticks: ChangeTicks,
        world_tick: Ticks,
        change_tick: Ticks,
    ) -> bool {
        !self.spec_inner().spec_matches_component(component, ticks, world_tick, change_tick)
    }

    fn matches(&self, component: &T, ticks: &ChangeTicks, world_tick: Ticks, change_tick: Ticks) -> (r:
        bool) {
        !self.inner().matches(component, ticks, world_tick, change_tick)
    }
}

/// A component counts as changed exactly when it was added or mutated.
pub proof fn lemma_changed<T>(component: T, ticks: ChangeTicks, world_tick: Ticks, change_tick: Ticks)
    ensures
        <Changed as QueryElementFilter<T>>::spec_matches_component(
            &Changed,
            component,
            ticks,
            world_tick,
            change_tick,
        ) == (<Added as QueryElementFilter<T>>::spec_matches_component(
            &Added,
            component,
            ticks,
            world_tick,
            change_tick,
        ) || <Mutated as QueryElementFilter<T>>::spec_matches_component(
            &Mutated,
            component,
            ticks,
            world_tick,
            change_tick,
        )),
{
}

/// Wraps `element` in a filter that matches all its components.
pub fn contains<E>(element: E) -> (f: Filter<Contains, E>)
    ensures
        f.spec_element() == element,
{
    Filter::new(Contains, element)
}

/// Wraps `element` in a filter that only matches the components added at
/// the world tick.
pub fn added<E>(element: E) -> (f: Filter<Added, E>)
    ensures
        f.spec_element() == element,
{
    Filter::new(Added, element)
}

/// Wraps `element` in a filter that only matches the components mutated
/// after the change tick.
pub fn mutated<E>(element: E) -> (f: Filter<Mutated, E>)
    ensures
        f.spec_element() == element,
{
    Filter::new(Mutated, element)
}

/// Wraps `element` in a filter that only matches the components added at
/// the world tick or mutated after the change tick.
pub fn changed<E>(element: E) -> (f: Filter<Changed, E>)
    ensures
        f.spec_element() == element,
{
    Filter::new(Changed, element)
}

} // verus!
