//! Scenarios against a small stand-in for the chain. The stand-in keeps
//! balances, denominations, proposals and sequence numbers in memory and
//! answers the transactions and queries that the library builds, in the
//! wire form that the library reads.

use std::collections::BTreeMap;

use margined_neutron_std::shim::Any as ShimAny;
use margined_neutron_std::types::cosmos::adminmodule::adminmodule::MsgSubmitProposal as WireSubmitProposal;
use margined_neutron_std::types::cosmos::bank::v1beta1::{
    MsgSend, MsgSendResponse, QueryBalanceRequest, QueryBalanceResponse,
};
use margined_neutron_std::types::cosmos::base::v1beta1::Coin as BaseCoin;
use margined_neutron_std::types::cosmos::gov::v1::{
    MsgSubmitProposalResponse as WireSubmitProposalResponse, MsgVote as WireVote, MsgVoteResponse as WireVoteResponse,
};
use margined_neutron_std::types::osmosis::tokenfactory::v1beta1::{
    MsgBurn, MsgBurnResponse, MsgCreateDenom, MsgCreateDenomResponse, MsgMint, MsgMintResponse,
    QueryDenomsFromCreatorRequest, QueryDenomsFromCreatorResponse, QueryParamsRequest,
    QueryParamsResponse,
};
use neutron_std::types::cosmos::bank::v1beta1 as neutron_bank;
use neutron_std::types::cosmos::base::v1beta1::Coin as NeutronCoin;
use neutron_test_tube::{
    Bank, Delivery, EncodeError, Encoded, ExecuteResponse, Gov, GovWithAppAccess, MsgSubmitProposalResponse,
    NeutronTestApp, ProposalWorkflow, QueryRequest, RunnerError, SigningAccount, TokenFactory,
    TxRequest, TxResult, WorkflowAction, WorkflowEvent, WorkflowFault,
};
use prost::Message;

/// Encodes a message as a caller does, keeping the fault where there is one.
fn encoded<M: Message>(msg: &M) -> Encoded {
    let mut buf = Vec::new();
    match msg.encode(&mut buf) {
        Ok(()) => Ok(buf),
        Err(e) => Err(EncodeError { required: e.required_capacity(), remaining: e.remaining() }),
    }
}

#[derive(Clone, Default)]
struct Ledger {
    balances: BTreeMap<(String, String), u128>,
    denoms: Vec<(String, String)>,
    proposals: Vec<u64>,
    votes: Vec<(u64, String, i32)>,
}

impl Ledger {
    fn balance(&self, address: &str, denom: &str) -> u128 {
        *self.balances.get(&(address.to_string(), denom.to_string())).unwrap_or(&0)
    }

    fn credit(&mut self, address: &str, denom: &str, amount: u128) {
        *self.balances.entry((address.to_string(), denom.to_string())).or_insert(0) += amount;
    }

    fn debit(&mut self, address: &str, denom: &str, amount: u128) -> Result<(), String> {
        let have = self.balance(address, denom);
        if have < amount {
            return Err(format!("spendable balance {have}{denom} is smaller than {amount}{denom}: insufficient funds"));
        }
        self.balances.insert((address.to_string(), denom.to_string()), have - amount);
        Ok(())
    }

    /// Applies one message and gives its reply as (type of the reply, bytes).
    fn apply(&mut self, type_url: &str, value: &[u8]) -> Result<(String, Vec<u8>), String> {
        match type_url {
            "/cosmos.bank.v1beta1.MsgSend" => {
                let msg = MsgSend::decode(value).map_err(|e| e.to_string())?;
                for coin in &msg.amount {
                    let amount: u128 = coin.amount.parse().map_err(|_| "invalid amount".to_string())?;
                    self.debit(&msg.from_address, &coin.denom, amount)?;
                    self.credit(&msg.to_address, &coin.denom, amount);
                }
                Ok(("/cosmos.bank.v1beta1.MsgSendResponse".to_string(), MsgSendResponse {}.encode_to_vec()))
            }
            "/osmosis.tokenfactory.v1beta1.MsgCreateDenom" => {
                let msg = MsgCreateDenom::decode(value).map_err(|e| e.to_string())?;
                let denom = format!("factory/{}/{}", msg.sender, msg.subdenom);
                if self.denoms.iter().any(|(_, d)| *d == denom) {
                    return Err(format!("attempting to create a denom that already exists: {denom}"));
                }
                self.denoms.push((msg.sender, denom.clone()));
                Ok((
                    "/osmosis.tokenfactory.v1beta1.MsgCreateDenomResponse".to_string(),
                    MsgCreateDenomResponse { new_token_denom: denom }.encode_to_vec(),
                ))
            }
            "/osmosis.tokenfactory.v1beta1.MsgMint" => {
                let msg = MsgMint::decode(value).map_err(|e| e.to_string())?;
                let coin = msg.amount.ok_or("no amount".to_string())?;
                if !self.denoms.iter().any(|(c, d)| *c == msg.sender && *d == coin.denom) {
                    return Err("unauthorized account".to_string());
                }
                self.credit(&msg.mint_to_address, &coin.denom, coin.amount.parse().unwrap());
                Ok(("/osmosis.tokenfactory.v1beta1.MsgMintResponse".to_string(), MsgMintResponse {}.encode_to_vec()))
            }
            "/osmosis.tokenfactory.v1beta1.MsgBurn" => {
                let msg = MsgBurn::decode(value).map_err(|e| e.to_string())?;
                let coin = msg.amount.ok_or("no amount".to_string())?;
                self.debit(&msg.burn_from_address, &coin.denom, coin.amount.parse().unwrap())?;
                Ok(("/osmosis.tokenfactory.v1beta1.MsgBurnResponse".to_string(), MsgBurnResponse {}.encode_to_vec()))
            }
            "/cosmos.adminmodule.adminmodule.MsgSubmitProposal" => {
                let msg = WireSubmitProposal::decode(value).map_err(|e| e.to_string())?;
                if msg.messages.is_empty() {
                    return Err("no messages proposed".to_string());
                }
                let id = self.proposals.len() as u64 + 1;
                self.proposals.push(id);
                Ok((
                    "/cosmos.gov.v1.MsgSubmitProposalResponse".to_string(),
                    WireSubmitProposalResponse { proposal_id: id }.encode_to_vec(),
                ))
            }
            "/cosmos.gov.v1.MsgVote" => {
                let msg = WireVote::decode(value).map_err(|e| e.to_string())?;
                if !self.proposals.contains(&msg.proposal_id) {
                    return Err(format!("proposal {} doesn't exist", msg.proposal_id));
                }
                self.votes.retain(|(id, voter, _)| !(*id == msg.proposal_id && *voter == msg.voter));
                self.votes.push((msg.proposal_id, msg.voter, msg.option));
                Ok(("/cosmos.gov.v1.MsgVoteResponse".to_string(), WireVoteResponse {}.encode_to_vec()))
            }
            other => Err(format!("unable to resolve type URL {other}")),
        }
    }
}

struct Chain {
    app: NeutronTestApp,
    ledger: Ledger,
    sequences: BTreeMap<String, u64>,
    height: i64,
    accounts: u64,
}

impl Chain {
    fn new() -> Self {
        Chain {
            app: NeutronTestApp::new(),
            ledger: Ledger::default(),
            sequences: BTreeMap::new(),
            height: 1,
            accounts: 0,
        }
    }

    fn init_account(&mut self, coins: &[(u128, &str)]) -> SigningAccount {
        self.accounts += 1;
        let address = format!("{}1account{}", self.app.address_prefix(), self.accounts);
        for (amount, denom) in coins {
            self.ledger.credit(&address, denom, *amount);
        }
        self.sequences.insert(address.clone(), 0);
        self.height += 1;
        self.app.init_account(address)
    }

    fn first_validator(&mut self, denom: &str, gas_adjustment_permille: u64) -> SigningAccount {
        let address = format!("{}1validator", self.app.address_prefix());
        self.sequences.entry(address.clone()).or_insert(0);
        let sequence = self.sequences[&address];
        self.app
            .get_first_validator_signing_account(address, denom.to_string(), gas_adjustment_permille)
            .with_sequence(sequence)
    }

    /// All messages take effect or none does.
    fn deliver(&mut self, tx: &TxRequest) -> Delivery {
        let expected = match self.sequences.get(&tx.signer) {
            Some(sequence) => *sequence,
            None => return Delivery::Rejected { msg: format!("account {} not found", tx.signer) },
        };
        if tx.chain_id != "neutron-666" || tx.sequence != expected {
            return Delivery::Rejected {
                msg: format!("account sequence mismatch, expected {expected}, got {}", tx.sequence),
            };
        }
        self.sequences.insert(tx.signer.clone(), expected + 1);
        self.height += 1;
        let mut next = self.ledger.clone();
        let mut replies = Vec::new();
        for msg in &tx.msgs {
            match next.apply(&msg.type_url, &msg.value) {
                Ok((type_url, value)) => replies.push(ShimAny { type_url, value }),
                Err(log) => return Delivery::Reverted { log },
            }
        }
        self.ledger = next;
        let mut data = Vec::new();
        for reply in &replies {
            let bytes = reply.encode_to_vec();
            data.push(0x12);
            prost::encoding::encode_varint(bytes.len() as u64, &mut data);
            data.extend_from_slice(&bytes);
        }
        Delivery::Executed(TxResult {
            data,
            log: String::new(),
            events: vec![],
            gas_wanted: 200_000,
            gas_used: 80_000,
        })
    }

    fn query(&self, request: &QueryRequest) -> Result<Vec<u8>, String> {
        match request.path.as_str() {
            "/cosmos.bank.v1beta1.Query/Balance" => {
                let q = QueryBalanceRequest::decode(request.data.as_slice()).map_err(|e| e.to_string())?;
                let amount = self.ledger.balance(&q.address, &q.denom);
                Ok(QueryBalanceResponse {
                    balance: Some(BaseCoin { denom: q.denom, amount: amount.to_string() }),
                }
                .encode_to_vec())
            }
            "/osmosis.tokenfactory.v1beta1.Query/DenomsFromCreator" => {
                let q = QueryDenomsFromCreatorRequest::decode(request.data.as_slice())
                    .map_err(|e| e.to_string())?;
                let denoms =
                    self.ledger.denoms.iter().filter(|(c, _)| *c == q.creator).map(|(_, d)| d.clone()).collect();
                Ok(QueryDenomsFromCreatorResponse { denoms }.encode_to_vec())
            }
            "/osmosis.tokenfactory.v1beta1.Query/Params" => {
                Ok(QueryParamsResponse { params: Some(Default::default()) }.encode_to_vec())
            }
            path => Err(format!("No route found for `{path}`")),
        }
    }

    fn balance_of(&self, address: &str, denom: &str) -> BaseCoin {
        let bank = Bank::new(&self.app);
        let request = bank.query_balance(
            encoded(&QueryBalanceRequest { address: address.to_string(), denom: denom.to_string() }),
        )
        .unwrap();
        let reply = self.query(&request);
        let bytes = self.app.finish_query(&request.path, reply).unwrap();
        QueryBalanceResponse::decode(bytes.as_slice()).unwrap().balance.unwrap()
    }

    fn create_denom(
        &mut self,
        sender: &mut SigningAccount,
        subdenom: &str,
    ) -> Result<ExecuteResponse<Vec<u8>>, RunnerError> {
        let tokenfactory = TokenFactory::new(&self.app);
        let tx = tokenfactory.create_denom(
            encoded(&MsgCreateDenom { sender: sender.address(), subdenom: subdenom.to_string() }),
            sender,
        )
        .unwrap();
        let delivery = self.deliver(&tx);
        self.app.finish_execute(sender, delivery)
    }

    fn propose(
        &mut self,
        msg_type_url: &str,
        msg: Vec<u8>,
        signer: &mut SigningAccount,
    ) -> Result<ExecuteResponse<MsgSubmitProposalResponse>, WorkflowFault> {
        let app = NeutronTestApp::new();
        let gov = GovWithAppAccess::new(&app);
        let (mut state, mut action) =
            gov.propose_and_execute(msg_type_url.to_string(), Ok(msg), signer.address(), signer);
        loop {
            let event = match action {
                WorkflowAction::Execute(tx) => WorkflowEvent::Delivered(self.deliver(&tx)),
                WorkflowAction::SelectAuthority { fee_denom, gas_adjustment_permille } => {
                    WorkflowEvent::Authority(Ok(self.first_validator(&fee_denom, gas_adjustment_permille)))
                }
                WorkflowAction::Await => panic!("the stand-in answers every request"),
                WorkflowAction::Finish => match state {
                    ProposalWorkflow::Done { outcome } => return outcome,
                    other => panic!("finished in {:?}", other),
                },
            };
            (state, action) = gov.advance(state, event, signer);
        }
    }
}

#[test]
fn transfer_of_nine_units_arrives() {
    let mut chain = Chain::new();
    let mut a = chain.init_account(&[(100, "udenom")]);
    let b = chain.init_account(&[]);

    let bank = Bank::new(&chain.app);
    let tx = bank.send(
        encoded(&MsgSend {
            from_address: a.address(),
            to_address: b.address(),
            amount: vec![BaseCoin { amount: "9".to_string(), denom: "udenom".to_string() }],
        }),
        &a,
    )
    .unwrap();
    let delivery = chain.deliver(&tx);
    chain.app.finish_execute(&mut a, delivery).unwrap();

    assert_eq!(
        chain.balance_of(&b.address(), "udenom"),
        BaseCoin { amount: "9".to_string(), denom: "udenom".to_string() }
    );
    assert_eq!(
        chain.balance_of(&a.address(), "udenom"),
        BaseCoin { amount: "91".to_string(), denom: "udenom".to_string() }
    );
    assert_eq!(a.sequence(), 1);
}

#[test]
fn transfer_beyond_the_balance_is_reverted() {
    let mut chain = Chain::new();
    let mut a = chain.init_account(&[(5, "udenom")]);
    let b = chain.init_account(&[]);

    let bank = Bank::new(&chain.app);
    let tx = bank.send(
        encoded(&MsgSend {
            from_address: a.address(),
            to_address: b.address(),
            amount: vec![BaseCoin { amount: "9".to_string(), denom: "udenom".to_string() }],
        }),
        &a,
    )
    .unwrap();
    let delivery = chain.deliver(&tx);
    let res = chain.app.finish_execute(&mut a, delivery);

    assert_eq!(
        res,
        Err(RunnerError::ExecuteError {
            msg: "spendable balance 5udenom is smaller than 9udenom: insufficient funds".to_string()
        })
    );
    assert_eq!(chain.balance_of(&a.address(), "udenom").amount, "5");
    assert_eq!(chain.balance_of(&b.address(), "udenom").amount, "0");
    assert_eq!(a.sequence(), 1);
}

#[test]
fn created_denom_is_named_after_its_creator() {
    let mut chain = Chain::new();
    let mut a = chain.init_account(&[(100_000_000_000, "untrn")]);

    let res = chain.create_denom(&mut a, "udenom").unwrap();
    let denom = MsgCreateDenomResponse::decode(res.data.as_slice()).unwrap().new_token_denom;

    assert_eq!(denom, format!("factory/{}/udenom", a.address()));
    assert_eq!(denom, "factory/neutron1account1/udenom");
}

#[test]
fn two_denoms_in_one_transaction_are_created_together() {
    let mut chain = Chain::new();
    let mut a = chain.init_account(&[(100_000_000_000, "untrn")]);

    let first = MsgCreateDenom { sender: a.address(), subdenom: "multidenom_1".to_string() };
    let second = MsgCreateDenom { sender: a.address(), subdenom: "multidenom_2".to_string() };
    let tx = chain.app.execute_multiple(
        &[
            (encoded(&first), "/osmosis.tokenfactory.v1beta1.MsgCreateDenom"),
            (encoded(&second), "/osmosis.tokenfactory.v1beta1.MsgCreateDenom"),
        ],
        &a,
    )
    .unwrap();
    assert_eq!(tx.msgs.len(), 2);
    let delivery = chain.deliver(&tx);
    let res = chain.app.finish_execute(&mut a, delivery).unwrap();

    assert_eq!(
        MsgCreateDenomResponse::decode(res.data.as_slice()).unwrap().new_token_denom,
        "factory/neutron1account1/multidenom_1"
    );
    assert_eq!(
        chain.ledger.denoms,
        vec![
            ("neutron1account1".to_string(), "factory/neutron1account1/multidenom_1".to_string()),
            ("neutron1account1".to_string(), "factory/neutron1account1/multidenom_2".to_string()),
        ]
    );
    assert_eq!(a.sequence(), 1);
}

#[test]
fn two_denoms_in_one_transaction_fail_together() {
    let mut chain = Chain::new();
    let mut a = chain.init_account(&[(100_000_000_000, "untrn")]);
    chain.create_denom(&mut a, "taken").unwrap();

    let fresh = MsgCreateDenom { sender: a.address(), subdenom: "fresh".to_string() };
    let taken = MsgCreateDenom { sender: a.address(), subdenom: "taken".to_string() };
    let tx = chain.app.execute_multiple(
        &[
            (encoded(&fresh), "/osmosis.tokenfactory.v1beta1.MsgCreateDenom"),
            (encoded(&taken), "/osmosis.tokenfactory.v1beta1.MsgCreateDenom"),
        ],
        &a,
    )
    .unwrap();
    let delivery = chain.deliver(&tx);
    let res = chain.app.finish_execute(&mut a, delivery);

    assert_eq!(
        res,
        Err(RunnerError::ExecuteError {
            msg: "attempting to create a denom that already exists: factory/neutron1account1/taken"
                .to_string()
        })
    );
    assert_eq!(
        chain.ledger.denoms,
        vec![("neutron1account1".to_string(), "factory/neutron1account1/taken".to_string())]
    );
    assert_eq!(a.sequence(), 2);
}

#[test]
fn proposal_gets_a_fresh_id_and_one_yes_vote() {
    let mut chain = Chain::new();
    let mut signer = chain.init_account(&[(100_000_000_000, "untrn")]);

    let first = chain.propose("/neutron.cron.MsgAddSchedule", vec![0x0a, 0x01, b'x'], &mut signer).unwrap();
    assert_eq!(first.data.proposal_id, 1);
    assert_eq!(chain.ledger.votes, vec![(1, "neutron1validator".to_string(), 1)]);
    assert_eq!(signer.sequence(), 1);

    let second = chain.propose("/neutron.cron.MsgRemoveSchedule", vec![0x0a, 0x01, b'y'], &mut signer).unwrap();
    assert!(second.data.proposal_id > 0);
    assert_ne!(second.data.proposal_id, first.data.proposal_id);
    assert_eq!(
        chain.ledger.votes,
        vec![(1, "neutron1validator".to_string(), 1), (2, "neutron1validator".to_string(), 1)]
    );
    assert_eq!(signer.sequence(), 2);
    assert_eq!(chain.sequences["neutron1validator"], 2);
}

#[test]
fn proposal_by_an_unknown_account_is_not_voted_on() {
    let mut chain = Chain::new();
    let mut stranger = NeutronTestApp::new().init_account("neutron1stranger".to_string());

    let fault = chain.propose("/neutron.cron.MsgAddSchedule", vec![1], &mut stranger).unwrap_err();
    assert_eq!(fault.step, neutron_test_tube::WorkflowStep::Submit);
    assert_eq!(
        fault.fault,
        RunnerError::ExecuteError { msg: "account neutron1stranger not found".to_string() }
    );
    assert!(chain.ledger.proposals.is_empty());
    assert!(chain.ledger.votes.is_empty());
    assert_eq!(stranger.sequence(), 0);
}

#[test]
fn bank_integration() {
    let mut chain = Chain::new();
    let mut signer = chain.init_account(&[(100_000_000_000u128, "untrn")]);
    let receiver = chain.init_account(&[(1u128, "untrn")]);
    let bank = Bank::new(&chain.app);

    let request = bank.query_balance(
        Ok(neutron_bank::QueryBalanceRequest {
            address: receiver.address(),
            denom: "untrn".to_string(),
        }
        .to_proto_bytes()),
    )
    .unwrap();
    let reply = chain.query(&request);
    let bytes = chain.app.finish_query(&request.path, reply).unwrap();
    let response =
        neutron_bank::QueryBalanceResponse::try_from(cosmwasm_std::Binary::new(bytes)).unwrap();
    assert_eq!(
        response.balance.unwrap(),
        NeutronCoin { amount: 1u128.to_string(), denom: "untrn".to_string() }
    );

    let tx = bank.send(
        Ok(neutron_bank::MsgSend {
            from_address: signer.address(),
            to_address: receiver.address(),
            amount: vec![NeutronCoin { amount: 9u128.to_string(), denom: "untrn".to_string() }],
        }
        .to_proto_bytes()),
        &signer,
    )
    .unwrap();
    let delivery = chain.deliver(&tx);
    chain.app.finish_execute(&mut signer, delivery).unwrap();
}

#[test]
fn tokenfactory_integration() {
    let mut chain = Chain::new();
    let mut signer = chain.init_account(&[(100_000_000_000_000_000_000, "untrn")]);

    // create denom
    let subdenom = "udenom";
    let res = chain.create_denom(&mut signer, subdenom).unwrap();
    let denom = MsgCreateDenomResponse::decode(res.data.as_slice()).unwrap().new_token_denom;

    assert_eq!(format!("factory/{}/{}", signer.address(), subdenom), denom);

    // denom from creator
    let tokenfactory = TokenFactory::new(&chain.app);
    let request = tokenfactory.query_denoms_from_creator(
        encoded(&QueryDenomsFromCreatorRequest { creator: signer.address() }),
    )
    .unwrap();
    let reply = chain.query(&request);
    let bytes = chain.app.finish_query(&request.path, reply).unwrap();
    let denoms = QueryDenomsFromCreatorResponse::decode(bytes.as_slice()).unwrap().denoms;

    assert_eq!(denoms, [denom.clone()]);

    let coin = BaseCoin { amount: 1000000000u128.to_string(), denom: denom.clone() };
    let tx = tokenfactory.mint(
        encoded(&MsgMint {
            sender: signer.address(),
            amount: Some(coin.clone()),
            mint_to_address: signer.address(),
        }),
        &signer,
    )
    .unwrap();
    let delivery = chain.deliver(&tx);
    chain.app.finish_execute(&mut signer, delivery).unwrap();

    let balance = chain.balance_of(&signer.address(), &denom);

    assert_eq!(coin.amount, balance.amount);
    assert_eq!(coin.denom, balance.denom);

    // burn
    let tokenfactory = TokenFactory::new(&chain.app);
    let tx = tokenfactory.burn(
        encoded(&MsgBurn {
            sender: signer.address(),
            amount: Some(coin.clone()),
            burn_from_address: signer.address(),
        }),
        &signer,
    )
    .unwrap();
    let delivery = chain.deliver(&tx);
    chain.app.finish_execute(&mut signer, delivery).unwrap();

    let balance = chain.balance_of(&signer.address(), &denom);

    assert_eq!("0", balance.amount);
    assert_eq!(coin.denom, balance.denom);
}

#[test]
fn test_execute() {
    let mut chain = Chain::new();

    assert_eq!(chain.height, 1i64);

    let mut acc = chain.init_account(&[(100_000_000_000_000_000_000u128, "untrn")]);
    let addr = acc.address();

    let res = chain.create_denom(&mut acc, "newdenom").unwrap();

    let create_denom_attrs = MsgCreateDenomResponse::decode(res.data.as_slice()).unwrap().new_token_denom;
    assert_eq!(create_denom_attrs, format!("factory/{}/{}", &addr, "newdenom"));

    // execute on more time to excercise account sequence
    let res = chain.create_denom(&mut acc, "newerdenom").unwrap();

    let create_denom_attrs = MsgCreateDenomResponse::decode(res.data.as_slice()).unwrap().new_token_denom;
    assert_eq!(create_denom_attrs, format!("factory/{}/{}", &addr, "newerdenom"));

    // execute on more time to excercise account sequence
    let msg = MsgCreateDenom { sender: acc.address(), subdenom: "multidenom_1".to_string() };
    let msg_2 = MsgCreateDenom { sender: acc.address(), subdenom: "multidenom_2".to_string() };

    assert_eq!(chain.height, 4i64);

    let tx = chain.app.execute_multiple(
        &[
            (encoded(&msg), "/osmosis.tokenfactory.v1beta1.MsgCreateDenom"),
            (encoded(&msg_2), "/osmosis.tokenfactory.v1beta1.MsgCreateDenom"),
        ],
        &acc,
    )
    .unwrap();
    let delivery = chain.deliver(&tx);
    let _res = chain.app.finish_execute(&mut acc, delivery).unwrap();

    assert_eq!(chain.height, 5i64);
    assert_eq!(acc.sequence(), 3);
}

#[test]
fn test_query() {
    let chain = Chain::new();
    let tokenfactory = TokenFactory::new(&chain.app);

    let request = tokenfactory.query_params(encoded(&QueryParamsRequest {})).unwrap();
    assert_eq!(request.path, "/osmosis.tokenfactory.v1beta1.Query/Params");
    let reply = chain.query(&request);
    let bytes = chain.app.finish_query(&request.path, reply).unwrap();
    let denom_creation_fee =
        QueryParamsResponse::decode(bytes.as_slice()).unwrap().params.unwrap().denom_creation_fee;

    // fee is no longer set
    assert_eq!(denom_creation_fee, [])
}

#[test]
fn query_on_an_unknown_route_is_matchable() {
    let chain = Chain::new();
    let request =
        chain.app.query("/neutron.random.v1beta1.Query/AdhocRandom", Ok(vec![8, 1])).unwrap();
    let reply = chain.query(&request);
    let res = chain.app.finish_query(&request.path, reply);
    assert!(matches!(
        &res,
        Err(RunnerError::RouteNotFound { path }) if path == "/neutron.random.v1beta1.Query/AdhocRandom"
    ));
    assert_eq!(
        res.unwrap_err().message(),
        "No route found for `/neutron.random.v1beta1.Query/AdhocRandom`"
    );
}

#[test]
fn vote_by_the_module_alone() {
    let mut chain = Chain::new();
    let mut signer = chain.init_account(&[(100, "untrn")]);
    let gov = Gov::new(&chain.app);
    let tx = gov.vote(
        neutron_test_tube::MsgVote {
            proposal_id: 4,
            voter: signer.address(),
            option: neutron_test_tube::VoteOption::No.number(),
            metadata: String::new(),
        },
        &signer,
    );
    let delivery = chain.deliver(&tx);
    let res = Gov::new(&chain.app).finish_vote(&mut signer, delivery);
    assert_eq!(res, Err(RunnerError::ExecuteError { msg: "proposal 4 doesn't exist".to_string() }));
    assert_eq!(signer.sequence(), 1);
}
