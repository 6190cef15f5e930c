//! Walking the functions of a module in order, and the optimisation that is
//! run over a finished module.
use vstd::prelude::*;
use crate::ir::{FuncView, IrModule};

verus! {

/// Walks the functions of a module from the first to the last, handing out
/// their positions.
pub struct ModuleFunctionIterator<'a> {
    module: &'a IrModule,
    next_func: Option<usize>,
}

impl<'a> ModuleFunctionIterator<'a> {
    /// The position that the next call of `next` hands out, if any.
    pub closed spec fn next_position(&self) -> Option<int> {
        match self.next_func {
            Some(f) => Some(f as int),
            None => None,
        }
    }

    /// The functions of the module walked.
    pub closed spec fn module_view(&self) -> Seq<FuncView> {
        self.module@
    }

    /// The number of functions of the module walked.
    pub open spec fn module_len(&self) -> nat {
        self.module_view().len()
    }

    /// The next position lies in the module.
    #[verifier::type_invariant]
    closed spec fn next_in_module(self) -> bool {
        self.next_func matches Some(f) ==> f < self.module@.len()
    }

    /// Starts at the first function of `module`.
    pub fn new(module: &'a IrModule) -> (r: ModuleFunctionIterator<'a>)
        ensures
            r.module_view() == module@,
            r.next_position() == (if module@.len() > 0 {
                Some(0int)
            } else {
                None
            }),
    {
        let next_func = if module.len() > 0 {
            Some(0)
        } else {
            None
        };
        ModuleFunctionIterator { module, next_func }
    }

    /// Hands out the position of the current function and moves to the one
    /// after it; `None` once every function has been handed out.
    pub fn next(&mut self) -> (r: Option<usize>)
        ensures
            final(self).module_view() == old(self).module_view(),
            match old(self).next_position() {
                Some(f) => r == Some(f as usize) && final(self).next_position() == (if f + 1 < old(
                    self,
                ).module_len() {
                    Some(f + 1)
                } else {
                    None
                }),
                None => r is None && final(self).next_position() is None,
            },
    {
        proof {
            use_type_invariant(&*self);
        }
        match self.next_func {
            Some(func) => {
                let len = self.module.len();
                let next = if func < len - 1 {
                    Some(func + 1)
                } else {
                    None
                };
                self.next_func = next;
                Some(func)
            },
            None => None,
        }
    }
}

/// How hard the optimiser works, from not at all to aggressively.
#[derive(Clone, Copy, Debug, PartialEq, Eq, Structural)]
pub enum OptimizationLevel {
    Unoptimized,
    Less,
    Default,
    Aggressive,
}

/// How a finished module is optimised: the optimiser's settings, then the
/// function passes run on each function in `function_order`, then the module
/// passes run on the whole module.
pub struct OptimizationPlan {
    pub optimization_level: OptimizationLevel,
    pub size_level: u32,
    /// The size up to which the inliner inlines a callee.
    pub inliner_threshold: u32,
    /// The positions of the functions, in the order the function passes
    /// visit them.
    pub function_order: Vec<usize>,
}

/// The positions of a module's functions in module order: `0` to `len - 1`.
pub open spec fn module_order(len: nat) -> Seq<usize> {
    Seq::new(len, |i: int| i as usize)
}

/// The optimisation run over `module`: the aggressive level with no size
/// reduction and the inlining threshold of the aggressive level, function
/// passes on every function once, in module order.
pub fn optimize_module(module: &IrModule) -> (r: OptimizationPlan)
    ensures
        r.optimization_level == OptimizationLevel::Aggressive,
        r.size_level == 0,
        r.inliner_threshold == 250,
        r.function_order@ == module_order(module@.len()),
{
    let mut function_order: Vec<usize> = Vec::new();
    let mut func_iterator = ModuleFunctionIterator::new(module);
    let ghost len = module@.len();
    loop
        invariant
            func_iterator.module_len() == len,
            len == module@.len(),
            match func_iterator.next_position() {
                Some(f) => f == function_order@.len() && f < len,
                None => function_order@.len() == len,
            },
            function_order@ == module_order(function_order@.len()),
        ensures
            function_order@ == module_order(len),
        decreases len - function_order@.len(),
    {
        match func_iterator.next() {
            Some(func) => {
                function_order.push(func);
                assert(function_order@ =~= module_order(function_order@.len()));
            },
            None => break,
        }
    }
    OptimizationPlan {
        optimization_level: OptimizationLevel::Aggressive,
        size_level: 0,
        inliner_threshold: 250,
        function_order,
    }
}

} // verus!
