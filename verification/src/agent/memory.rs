//! The conversation history the agent sends with every request.

use vstd::prelude::*;
use crate::agent::responses::{self, CreateResponse, InputItem, InputItemView, OutputItemView, Response};

verus! {

/// The history items that record the items of a response's output, in order.
pub open spec fn outputs_as_inputs(output: Seq<OutputItemView>) -> Seq<InputItemView> {
    output.map_values(|o: OutputItemView| InputItemView::Output(o))
}

/// Appending a response's output to a history keeps the history as it was
/// and adds one item per output item, of every kind, in order: the item at
/// position `i` after the old history records output item `i`.
pub proof fn lemma_history_grows_by_outputs(history: Seq<InputItemView>, output: Seq<OutputItemView>)
    ensures
        (history + outputs_as_inputs(output)).len() == history.len() + output.len(),
        forall|i: int|
            0 <= i < history.len() ==> #[trigger] (history + outputs_as_inputs(output))[i]
                == history[i],
        forall|i: int|
            0 <= i < output.len() ==> #[trigger] (history + outputs_as_inputs(output))[history.len()
                + i] == InputItemView::Output(output[i]),
{
    assert forall|i: int| 0 <= i < output.len() implies #[trigger] (history + outputs_as_inputs(
        output,
    ))[history.len() + i] == InputItemView::Output(output[i]) by {
        assert(outputs_as_inputs(output)[i] == InputItemView::Output(output[i]));
    }
}

/// The conversation so far: the user's questions and the model's output, in
/// the order they came.
pub struct AgentMemory {
    items: Vec<InputItem>,
}

impl View for AgentMemory {
    type V = Seq<InputItemView>;

    closed spec fn view(&self) -> Seq<InputItemView> {
        responses::inputs_view(self.items@)
    }
}

impl AgentMemory {
    /// An empty history.
    pub fn new() -> (res: Self)
        ensures
            res@ == Seq::<InputItemView>::empty(),
    {
        let res = AgentMemory { items: Vec::new() };
        assert(res@ =~= Seq::<InputItemView>::empty());
        res
    }

    /// Appends an item to the history.
    pub fn add_item(&mut self, item: InputItem)
        ensures
            final(self)@ == old(self)@.push(item@),
    {
        self.items.push(item);
        assert(responses::inputs_view(self.items@) =~= responses::inputs_view(old(self).items@).push(item@));
    }

    /// Puts the whole history, in order, into the request as its input.
    pub fn history_to_request(&self, request: &mut CreateResponse)
        ensures
            final(request)@.input == self@,
            final(request)@.model == old(request)@.model,
            final(request)@.reasoning_effort == old(request)@.reasoning_effort,
            final(request)@.reasoning_summary == old(request)@.reasoning_summary,
            final(request)@.tools == old(request)@.tools,
    {
        let mut input: Vec<InputItem> = Vec::new();
        let n = self.items.len();
        for i in 0..n
            invariant
                n == self.items.len(),
                input@.len() == i,
                forall|j: int| 0 <= j < i ==> #[trigger] input@[j]@ == self.items@[j]@,
        {
            input.push(self.items[i].copy());
        }
        assert(responses::inputs_view(input@) =~= self@);
        request.input = input;
    }

    /// Appends the response's output items to the history, in order.
    pub fn history_from_response(&mut self, response: &Response)
        ensures
            final(self)@ == old(self)@ + outputs_as_inputs(response@.output),
            final(self)@.len() == old(self)@.len() + response@.output.len(),
            forall|i: int| 0 <= i < old(self)@.len() ==> #[trigger] final(self)@[i] == old(self)@[i],
            forall|i: int|
                0 <= i < response@.output.len() ==> #[trigger] final(self)@[old(self)@.len() + i]
                    == InputItemView::Output(response@.output[i]),
    {
        proof {
            lemma_history_grows_by_outputs(old(self)@, response@.output);
        }
        let n = response.output.len();
        for i in 0..n
            invariant
                n == response.output.len(),
                self@ == old(self)@ + outputs_as_inputs(response@.output.subrange(0, i as int)),
        {
            let item = InputItem::from_output(response.output[i].copy());
            self.add_item(item);
            assert(outputs_as_inputs(response@.output.subrange(0, i + 1)) =~= outputs_as_inputs(
                response@.output.subrange(0, i as int),
            ).push(item@));
        }
        assert(response@.output.subrange(0, n as int) =~= response@.output);
    }
}

} // verus!
