use custody_ledger::{
    Address, ApprovalStatus, CallContext, Contract, Error, Receipt, RetaineeInfo, RetainerBalance, Transfer,
};

fn addr(s: &str) -> Address {
    Address::new(s.to_string())
}

fn signed_by(who: &Address) -> CallContext {
    CallContext::new(vec![who.clone()], 0, 0)
}

struct Pair {
    retainor: Address,
    retainee: Address,
    token: Address,
    custody: Address,
    contract: Contract,
}

fn pair() -> Pair {
    let custody = addr("CRETAINER");
    Pair {
        retainor: addr("GRETAINOR"),
        retainee: addr("GRETAINEE"),
        token: addr("CTOKEN"),
        custody: custody.clone(),
        contract: Contract::new(custody),
    }
}

impl Pair {
    fn fund(&mut self, amount: i128) -> Result<Transfer, Error> {
        self.contract.add_retainer_balance(
            &signed_by(&self.retainor),
            self.retainor.clone(),
            self.retainee.clone(),
            amount,
            self.token.clone(),
        )
    }

    fn bill(&mut self, amount: i128, notes: &str) -> Result<(), Error> {
        self.contract.submit_bill(
            &signed_by(&self.retainee),
            self.retainor.clone(),
            self.retainee.clone(),
            amount,
            notes.to_string(),
            "d".to_string(),
        )
    }

    fn resolve(&mut self, status: ApprovalStatus) -> Result<Option<Transfer>, Error> {
        self.contract.resolve_bill(
            &signed_by(&self.retainor),
            self.retainor.clone(),
            self.retainee.clone(),
            status,
            "done".to_string(),
            "d".to_string(),
        )
    }

    fn history(&self, limit: u32) -> Vec<i128> {
        self.contract.view_receipt_history(&self.retainor, &self.retainee, limit).iter().map(|r| r.bill.amount).collect()
    }

    fn range(&self, start: u32, end: u32) -> Vec<i128> {
        self.contract
            .view_receipt_history_range(&self.retainor, &self.retainee, start, end)
            .iter()
            .map(|r| r.bill.amount)
            .collect()
    }
}

#[test]
fn funding_returns_the_transfer_into_custody() {
    let mut p = pair();
    assert_eq!(
        p.fund(40),
        Ok(Transfer { token: p.token.clone(), from: p.retainor.clone(), to: p.custody.clone(), amount: 40 })
    );
}

#[test]
fn approval_pays_the_retainee_from_custody() {
    let mut p = pair();
    p.fund(100).unwrap();
    p.bill(49, "work").unwrap();
    assert_eq!(
        p.resolve(ApprovalStatus::Approved),
        Ok(Some(Transfer { token: p.token.clone(), from: p.custody.clone(), to: p.retainee.clone(), amount: 49 }))
    );
    assert_eq!(
        p.contract.retainer_balance(&p.retainor, &p.retainee),
        Some(RetainerBalance { amount: 51, token: p.token.clone() })
    );
    assert_eq!(p.contract.history_index(&p.retainor, &p.retainee), 1);
}

#[test]
fn funding_rejects_non_positive_amounts() {
    let mut p = pair();
    assert_eq!(p.fund(0), Err(Error::NegativeAmount));
    assert_eq!(p.fund(-3), Err(Error::NegativeAmount));
    assert_eq!(p.contract.retainer_balance(&p.retainor, &p.retainee), None);
}

#[test]
fn funding_beyond_the_largest_balance_overflows() {
    let mut p = pair();
    p.fund(i128::MAX - 1).unwrap();
    assert_eq!(p.fund(2), Err(Error::Overflow));
    p.fund(1).unwrap();
    assert_eq!(
        p.contract.retainer_balance(&p.retainor, &p.retainee),
        Some(RetainerBalance { amount: i128::MAX, token: p.token.clone() })
    );
}

#[test]
fn bills_must_be_positive() {
    let mut p = pair();
    p.fund(10).unwrap();
    assert_eq!(p.bill(0, "nothing"), Err(Error::NegativeAmount));
    assert_eq!(p.contract.view_bill(&p.retainor, &p.retainee), None);
}

#[test]
fn a_bill_may_take_the_whole_balance() {
    let mut p = pair();
    p.fund(10).unwrap();
    p.bill(10, "all").unwrap();
    p.resolve(ApprovalStatus::Approved).unwrap();
    assert_eq!(
        p.contract.retainer_balance(&p.retainor, &p.retainee),
        Some(RetainerBalance { amount: 0, token: p.token.clone() })
    );
    assert_eq!(p.bill(1, "more"), Err(Error::InsufficientRetainedBalance));
}

#[test]
fn each_party_signs_its_own_steps() {
    let mut p = pair();
    let ctx_retainee = signed_by(&p.retainee);
    let ctx_retainor = signed_by(&p.retainor);
    let res = p.contract.add_retainer_balance(&ctx_retainee, p.retainor.clone(), p.retainee.clone(), 5, p.token.clone());
    assert_eq!(res, Err(Error::NotAuthorized));
    p.fund(5).unwrap();
    let res = p.contract.submit_bill(&ctx_retainor, p.retainor.clone(), p.retainee.clone(), 5, "x".to_string(), "d".to_string());
    assert_eq!(res, Err(Error::NotAuthorized));
    p.bill(5, "x").unwrap();
    assert_eq!(p.contract.unsubmit_bill(&ctx_retainor, p.retainor.clone(), p.retainee.clone()), Err(Error::NotAuthorized));
    let res = p.contract.resolve_bill(
        &ctx_retainee,
        p.retainor.clone(),
        p.retainee.clone(),
        ApprovalStatus::Approved,
        "x".to_string(),
        "d".to_string(),
    );
    assert_eq!(res, Err(Error::NotAuthorized));
    assert!(p.contract.view_bill(&p.retainor, &p.retainee).is_some());
    let res = p.contract.set_retainee_info(&ctx_retainor, p.retainee.clone(), "Alice".to_string(), vec![]);
    assert_eq!(res, Err(Error::NotAuthorized));
    let res = p.contract.set_retainor_info(&ctx_retainee, p.retainor.clone(), "Bob".to_string(), vec![]);
    assert_eq!(res, Err(Error::NotAuthorized));
}

#[test]
fn withdrawing_no_bill_is_harmless() {
    let mut p = pair();
    assert_eq!(p.contract.unsubmit_bill(&signed_by(&p.retainee), p.retainor.clone(), p.retainee.clone()), Ok(()));
    assert_eq!(p.contract.view_bill(&p.retainor, &p.retainee), None);
    assert_eq!(p.contract.retainer_balance(&p.retainor, &p.retainee), None);
}

#[test]
fn denied_bill_is_recorded_and_cleared() {
    let mut p = pair();
    p.fund(100).unwrap();
    p.bill(30, "work").unwrap();
    assert_eq!(p.resolve(ApprovalStatus::Denied), Ok(None));
    assert_eq!(p.contract.view_bill(&p.retainor, &p.retainee), None);
    assert_eq!(
        p.contract.retainer_balance(&p.retainor, &p.retainee),
        Some(RetainerBalance { amount: 100, token: p.token.clone() })
    );
    let r: Receipt = p.contract.view_receipt(&p.retainor, &p.retainee, 1).unwrap();
    assert_eq!(r.status, ApprovalStatus::Denied);
    assert_eq!(r.bill.amount, 30);
    assert_eq!(p.resolve(ApprovalStatus::Denied), Err(Error::NoPendingPayment));
}

#[test]
fn history_queries_follow_the_limit() {
    let mut p = pair();
    p.fund(100).unwrap();
    for amount in [1, 2, 3] {
        p.bill(amount, "work").unwrap();
        p.resolve(ApprovalStatus::Approved).unwrap();
    }
    assert_eq!(p.history(0), vec![1, 2, 3]);
    assert_eq!(p.history(1), vec![3]);
    assert_eq!(p.history(2), vec![2, 3]);
    assert_eq!(p.history(3), vec![1, 2, 3]);
    assert_eq!(p.history(10), vec![1, 2, 3]);
    assert_eq!(p.contract.history_index(&p.retainor, &p.retainee), 3);
}

#[test]
fn history_ranges_skip_missing_indices() {
    let mut p = pair();
    assert_eq!(p.range(0, 10), Vec::<i128>::new());
    assert_eq!(p.history(0), Vec::<i128>::new());
    p.fund(100).unwrap();
    for amount in [5, 6, 7] {
        p.bill(amount, "work").unwrap();
        p.resolve(ApprovalStatus::Denied).unwrap();
    }
    assert_eq!(p.range(0, 2), vec![5, 6]);
    assert_eq!(p.range(2, 10), vec![6, 7]);
    assert_eq!(p.range(3, 3), vec![7]);
    assert_eq!(p.range(3, 1), Vec::<i128>::new());
    assert_eq!(p.range(4, u32::MAX), Vec::<i128>::new());
    assert_eq!(p.contract.view_receipt(&p.retainor, &p.retainee, 0), None);
    assert_eq!(p.contract.view_receipt(&p.retainor, &p.retainee, 4), None);
}

#[test]
fn directory_records_are_replaced_whole() {
    let mut p = pair();
    assert_eq!(p.contract.retainee_info(&p.retainee), None);
    let ctx = signed_by(&p.retainee);
    p.contract.set_retainee_info(&ctx, p.retainee.clone(), "Alice".to_string(), vec![addr("G1"), addr("G2")]).unwrap();
    p.contract.set_retainee_info(&ctx, p.retainee.clone(), "Alicia".to_string(), vec![addr("G3")]).unwrap();
    assert_eq!(
        p.contract.retainee_info(&p.retainee),
        Some(RetaineeInfo { name: "Alicia".to_string(), retainors: vec![addr("G3")] })
    );
    assert_eq!(p.contract.retainor_info(&p.retainor), None);
}

#[test]
fn pairs_do_not_share_records() {
    let mut p = pair();
    p.fund(100).unwrap();
    p.bill(10, "work").unwrap();
    let other = addr("GOTHER");
    assert_eq!(p.contract.view_bill(&p.retainee, &p.retainor), None);
    assert_eq!(p.contract.view_bill(&p.retainor, &other), None);
    assert_eq!(p.contract.retainer_balance(&other, &p.retainee), None);
}

#[test]
fn restored_pairs_must_be_consistent() {
    let mut p = pair();
    let (r, e, token) = (p.retainor.clone(), p.retainee.clone(), p.token.clone());
    let balance = RetainerBalance { amount: 10, token: token.clone() };
    let bill = |amount: i128, token: &Address| custody_ledger::Bill {
        amount,
        token: token.clone(),
        notes: "n".to_string(),
        date: "d".to_string(),
    };
    assert!(!p.contract.restore_pair(&r, &e, Some(balance.clone()), Some(bill(11, &token)), vec![]));
    assert!(!p.contract.restore_pair(&r, &e, None, Some(bill(1, &token)), vec![]));
    assert!(!p.contract.restore_pair(&r, &e, Some(balance.clone()), Some(bill(1, &addr("COTHER"))), vec![]));
    assert!(!p.contract.restore_pair(&r, &e, Some(RetainerBalance { amount: -1, token: token.clone() }), None, vec![]));
    assert_eq!(p.contract.retainer_balance(&r, &e), None);
    let old = Receipt { bill: bill(2, &token), notes: "ok".to_string(), date: "d".to_string(), status: ApprovalStatus::Approved };
    assert!(p.contract.restore_pair(&r, &e, Some(balance.clone()), Some(bill(4, &token)), vec![old.clone()]));
    assert_eq!(p.contract.retainer_balance(&r, &e), Some(balance));
    assert_eq!(p.contract.view_bill(&r, &e), Some(bill(4, &token)));
    assert_eq!(p.contract.history_index(&r, &e), 1);
    p.resolve(ApprovalStatus::Approved).unwrap();
    assert_eq!(p.contract.history_index(&r, &e), 2);
    assert_eq!(p.contract.view_receipt(&r, &e, 1), Some(old));
    assert_eq!(p.history(0), vec![2, 4]);
    assert_eq!(
        p.contract.retainer_balance(&r, &e),
        Some(RetainerBalance { amount: 6, token: token.clone() })
    );
}

#[test]
fn restored_directory_records_are_returned() {
    let mut p = pair();
    let info = RetaineeInfo { name: "Alice".to_string(), retainors: vec![p.retainor.clone()] };
    p.contract.restore_retainee_info(p.retainee.clone(), info.clone());
    assert_eq!(p.contract.retainee_info(&p.retainee), Some(info));
    let info = custody_ledger::RetainorInfo { name: "Bob".to_string(), retainees: vec![] };
    p.contract.restore_retainor_info(p.retainor.clone(), info.clone());
    assert_eq!(p.contract.retainor_info(&p.retainor), Some(info));
}
